//! The interpreter: fetches instructions from memory and executes them on
//! the registers, the call stack, memory, the display and the timers.

use vstd::prelude::*;
use std::collections::HashMap;
use vstd::pervasive::unreached;
use vstd::std_specs::hash::spec_hash_map_iter;
use vstd::std_specs::iter::IteratorSpec;
use crate::display::{Display, HEIGHT, WIDTH};
use crate::error::Error;
use crate::mem::{splice, Memory, MEM_SIZE};
use crate::model::{
    covers_pressed, lemma_decoded_cycle, lemma_f_instruction_decodes, no_release, release_choice,
    release_edge, snapshot, CpuView, MachineView, FLAG,
};
use crate::opcode::{
    address, family, join_bytes, low_byte, nibble, op_n, op_nn, op_x, op_y, reg_x, reg_y,
};
use crate::rng::random_byte;
use crate::timer::{Timer, TimerView};

verus! {

/// What a part of the machine holds when it is handed over for reading,
/// if it is handed over.
pub open spec fn seen<T: View>(part: Option<&T>) -> Option<T::V> {
    match part {
        Some(p) => Some(p@),
        None => None,
    }
}

/// What a part of the machine holds when it is handed over for writing,
/// if it is handed over.
pub open spec fn held<T: View>(part: Option<&mut T>) -> Option<T::V> {
    match part {
        Some(p) => Some(p@),
        None => None,
    }
}

/// How a cycle of the machine ended.
#[derive(Clone, Copy, Debug, PartialEq, Eq, Structural)]
pub enum Outcome {
    /// The instruction was executed; the next cycle may follow.
    Continue,
    /// The fetch or the instruction failed; the machine is to halt.
    Halt(Error),
    /// The instruction cannot be executed in the state that the machine is
    /// in, as a return with no call pending: the program is at fault, and
    /// the machine is to stop at once.
    Fault,
}

/// The registers of the interpreter.
pub struct Cpu {
    /// The program counter.
    pub pc: u16,
    /// The index register.
    pub i: u16,
    /// The general registers V0 to VF.
    pub v: [u8; 16],
    /// The return addresses of the calls that have not returned yet.
    pub stack: Vec<u16>,
    /// The keys as they were when the key-wait instruction last looked.
    pub pressed: HashMap<u8, bool>,
}

impl View for Cpu {
    type V = CpuView;

    open spec fn view(&self) -> CpuView {
        CpuView {
            pc: self.pc,
            i: self.i,
            v: self.v@,
            stack: self.stack@,
            pressed: self.pressed@,
        }
    }
}

impl Cpu {
    /// An interpreter at power-on: the program counter at the program base,
    /// every register zero, no call pending, no key seen.
    pub fn new() -> (cpu: Cpu)
        ensures
            cpu@ == CpuView::initial(),
    {
        Cpu { pc: 0x200, i: 0x0, v: [0u8; 16], stack: Vec::new(), pressed: HashMap::new() }
    }

    /// Reads the instruction at the program counter, high byte first, and
    /// moves the program counter behind it. Fails, and moves nothing, where
    /// a byte of the instruction lies outside memory.
    pub fn fetch(&mut self, mem: &Memory) -> (res: Result<u16, Error>)
        ensures
            (final(self)@, res) == old(self)@.fetch(mem@),
    {
        let byte1 = match mem.read(self.pc as usize) {
            Ok(byte) => byte,
            Err(_) => {
                return Err(Error::FetchOutOfBounds);
            },
        };
        let byte2 = match mem.read(self.pc as usize + 1) {
            Ok(byte) => byte,
            Err(_) => {
                return Err(Error::FetchOutOfBounds);
            },
        };
        let instruction = join_bytes(byte1, byte2);
        self.pc = self.pc + 2;
        Ok(instruction)
    }

    /// `Annn`: sets the index register to `nnn`.
    pub fn set_i(&mut self, instr: u16)
        ensures
            final(self)@ == old(self)@.set_i(instr),
    {
        self.i = address(instr);
    }

    /// `6xnn`: sets register `x` to `nn`.
    pub fn set_v(&mut self, instr: u16)
        ensures
            final(self)@ == old(self)@.set_v(instr),
    {
        let ind = reg_x(instr);
        let val = low_byte(instr);
        self.v[ind] = val;
    }

    /// `7xnn`: adds `nn` to register `x`, modulo 256. The flag register is
    /// not written, whether the sum wraps or not.
    pub fn add_v(&mut self, instr: u16)
        ensures
            final(self)@ == old(self)@.add_v(instr),
    {
        let val = low_byte(instr);
        let ind = reg_x(instr);
        let new_reg = self.v[ind].wrapping_add(val);
        self.v[ind] = new_reg;
    }

    /// `1nnn`: jumps to `nnn`.
    pub fn handle_jump(&mut self, instr: u16)
        ensures
            final(self)@ == old(self)@.handle_jump(instr),
    {
        self.pc = address(instr);
    }

    /// `2nnn`: pushes the program counter and jumps to `nnn`.
    pub fn subroutine(&mut self, instr: u16)
        ensures
            final(self)@ == old(self)@.subroutine(instr),
    {
        let addr = address(instr);
        self.stack.push(self.pc);
        self.pc = addr;
    }

    /// `00EE`: returns to the address that was pushed last. A return with
    /// no call pending is a fault of the program: it is not to be executed.
    pub fn return_routine(&mut self)
        requires
            old(self)@.stack.len() > 0,
        ensures
            final(self)@ == old(self)@.return_routine(),
    {
        if let Some(addr) = self.stack.pop() {
            self.pc = addr;
        }
    }

    /// `3xnn`: skips the next instruction if register `x` equals `nn`.
    pub fn skip_vx_equal(&mut self, instr: u16)
        requires
            old(self)@.v[op_x(instr)] == op_nn(instr) ==> old(self)@.pc + 2 <= u16::MAX,
        ensures
            final(self)@ == old(self)@.skip_vx_equal(instr),
    {
        let val = low_byte(instr);
        let x = reg_x(instr);
        if self.v[x] == val {
            self.pc = self.pc + 2;
        }
    }

    /// `4xnn`: skips the next instruction if register `x` differs from `nn`.
    pub fn skip_vx_ne(&mut self, instr: u16)
        requires
            old(self)@.v[op_x(instr)] != op_nn(instr) ==> old(self)@.pc + 2 <= u16::MAX,
        ensures
            final(self)@ == old(self)@.skip_vx_ne(instr),
    {
        let val = low_byte(instr);
        let x = reg_x(instr);
        if self.v[x] != val {
            self.pc = self.pc + 2;
        }
    }

    /// `5xy0`: skips the next instruction if registers `x` and `y` are equal.
    pub fn skip_vx_vy_equal(&mut self, instr: u16)
        requires
            old(self)@.v[op_x(instr)] == old(self)@.v[op_y(instr)] ==> old(self)@.pc + 2
                <= u16::MAX,
        ensures
            final(self)@ == old(self)@.skip_vx_vy_equal(instr),
    {
        let x = reg_x(instr);
        let y = reg_y(instr);
        if self.v[x] == self.v[y] {
            self.pc = self.pc + 2;
        }
    }

    /// `9xy0`: skips the next instruction if registers `x` and `y` differ.
    pub fn skip_vx_vy_not_equal(&mut self, instr: u16)
        requires
            old(self)@.v[op_x(instr)] != old(self)@.v[op_y(instr)] ==> old(self)@.pc + 2
                <= u16::MAX,
        ensures
            final(self)@ == old(self)@.skip_vx_vy_not_equal(instr),
    {
        let x = reg_x(instr);
        let y = reg_y(instr);
        if self.v[x] != self.v[y] {
            self.pc = self.pc + 2;
        }
    }

    /// `8xy0`: copies register `y` to register `x`.
    pub fn set_vx_to_vy(&mut self, instr: u16)
        ensures
            final(self)@ == old(self)@.set_vx_to_vy(instr),
    {
        let x_ind = reg_x(instr);
        let y_ind = reg_y(instr);
        let vy = self.v[y_ind];
        self.v[x_ind] = vy;
    }

    /// `8xy5`: subtracts register `y` from register `x`, modulo 256. The
    /// flag register becomes 1 if `x` was greater than `y`, else 0.
    pub fn arith_vx_minus_vy(&mut self, instr: u16)
        ensures
            final(self)@ == old(self)@.arith_vx_minus_vy(instr),
    {
        let x_ind = reg_x(instr);
        let y_ind = reg_y(instr);
        let vx = self.v[x_ind];
        let vy = self.v[y_ind];
        if vx > vy {
            self.v[FLAG] = 1;
        } else {
            self.v[FLAG] = 0;
        }
        let result = vx.wrapping_sub(vy);
        self.v[x_ind] = result;
    }

    /// `8xy7`: sets register `x` to register `y` minus register `x`, modulo
    /// 256. The flag register becomes 1 if `y` was greater than `x`, else 0.
    pub fn arith_vy_minus_vx(&mut self, instr: u16)
        ensures
            final(self)@ == old(self)@.arith_vy_minus_vx(instr),
    {
        let x_ind = reg_x(instr);
        let y_ind = reg_y(instr);
        let vx = self.v[x_ind];
        let vy = self.v[y_ind];
        if vy > vx {
            self.v[FLAG] = 1;
        } else {
            self.v[FLAG] = 0;
        }
        let result = vy.wrapping_sub(vx);
        self.v[x_ind] = result;
    }

    /// `8xy1`: sets register `x` to `x | y`.
    pub fn logic_vx_or_vy(&mut self, instr: u16)
        ensures
            final(self)@ == old(self)@.logic_vx_or_vy(instr),
    {
        let x_ind = reg_x(instr);
        let y_ind = reg_y(instr);
        let vx = self.v[x_ind];
        let vy = self.v[y_ind];
        self.v[x_ind] = vx | vy;
    }

    /// `8xy2`: sets register `x` to `x & y`.
    pub fn logic_vx_and_vy(&mut self, instr: u16)
        ensures
            final(self)@ == old(self)@.logic_vx_and_vy(instr),
    {
        let x_ind = reg_x(instr);
        let y_ind = reg_y(instr);
        let vx = self.v[x_ind];
        let vy = self.v[y_ind];
        self.v[x_ind] = vx & vy;
    }

    /// `8xy3`: sets register `x` to `x ^ y`.
    pub fn logic_vx_xor_vy(&mut self, instr: u16)
        ensures
            final(self)@ == old(self)@.logic_vx_xor_vy(instr),
    {
        let x_ind = reg_x(instr);
        let y_ind = reg_y(instr);
        let vx = self.v[x_ind];
        let vy = self.v[y_ind];
        self.v[x_ind] = vx ^ vy;
    }

    /// `8xyE`: shifts register `x` left by one bit. The flag register
    /// becomes the bit that left the register.
    pub fn left_shift(&mut self, instr: u16)
        ensures
            final(self)@ == old(self)@.left_shift(instr),
    {
        let x_ind = reg_x(instr);
        let vx = self.v[x_ind];
        assert(((vx & 0x80) >> 7 == 1) == (vx >= 128) && vx << 1 == (vx * 2) % 256 && (vx >= 128
            <==> vx / 128 == 1) && (vx < 128 <==> vx / 128 == 0)) by (bit_vector);
        if (vx & 0x80) >> 7 == 1 {
            self.v[FLAG] = 1;
        } else {
            self.v[FLAG] = 0;
        }
        self.v[x_ind] = vx << 1;
    }

    /// `8xy6`: shifts register `x` right by one bit. The flag register
    /// becomes the bit that left the register.
    pub fn right_shift(&mut self, instr: u16)
        ensures
            final(self)@ == old(self)@.right_shift(instr),
    {
        let x_ind = reg_x(instr);
        let vx = self.v[x_ind];
        assert(((vx & 0x1) == 1) == (vx % 2 == 1) && vx >> 1 == vx / 2) by (bit_vector);
        if (vx & 0x1) == 1 {
            self.v[FLAG] = 1;
        } else {
            self.v[FLAG] = 0;
        }
        self.v[x_ind] = vx >> 1;
    }

    /// The family `8xy_`: executes the member that the last nibble names,
    /// or fails with the instruction where it names none.
    pub fn handle_logic_arith(&mut self, instr: u16) -> (res: Result<i32, Error>)
        ensures
            (final(self)@, res) == old(self)@.handle_logic_arith(instr),
    {
        match nibble(instr) {
            0 => self.set_vx_to_vy(instr),
            5 => self.arith_vx_minus_vy(instr),
            6 => self.right_shift(instr),
            7 => self.arith_vy_minus_vx(instr),
            1 => self.logic_vx_or_vy(instr),
            2 => self.logic_vx_and_vy(instr),
            3 => self.logic_vx_xor_vy(instr),
            0xE => self.left_shift(instr),
            _ => {
                return Err(Error::UnhandledSubOpcode(instr));
            },
        }
        Ok(0)
    }

    /// The digit whose glyph `Fx29` asks for: the low nibble of register `x`.
    pub fn get_font_char(&self, instr: u16) -> (digit: u8)
        ensures
            digit == self@.get_font_char(instr),
    {
        let x_ind = reg_x(instr);
        let vx = self.v[x_ind];
        assert(vx & 0xF == vx % 16) by (bit_vector);
        vx & 0xF
    }

    /// `Fx29`: points the index register at the glyph for the low nibble of
    /// register `x`.
    pub fn font_character(&mut self, instr: u16, mem: &Memory)
        ensures
            final(self)@ == old(self)@.font_character(instr),
    {
        let chr = self.get_font_char(instr);
        self.i = mem.get_font_addr(chr) as u16;
    }

    /// `Fx55`: writes the registers 0 to `x` to memory, from the index
    /// register's address on. All of them must fit before the end of memory.
    pub fn store(&self, instr: u16, mem: &mut Memory)
        requires
            self@.i + op_x(instr) < MEM_SIZE,
        ensures
            final(mem)@ == self@.store(instr, old(mem)@),
    {
        let ind = reg_x(instr);
        let base = self.i as usize;
        let mut r: usize = 0;
        while r <= ind
            invariant
                r <= ind + 1,
                ind < 16,
                base == self.i,
                base + ind < MEM_SIZE,
                mem@ == splice(old(mem)@, base as int, self.v@.subrange(0, r as int)),
            decreases ind + 1 - r,
        {
            mem.mem[base + r] = self.v[r];
            r = r + 1;
        }
    }

    /// `Fx65`: reads the registers 0 to `x` from memory, from the index
    /// register's address on. All of them must lie before the end of memory.
    pub fn load(&mut self, instr: u16, mem: &Memory)
        requires
            old(self)@.i + op_x(instr) < MEM_SIZE,
        ensures
            final(self)@ == old(self)@.load(instr, mem@),
    {
        let ind = reg_x(instr);
        let base = self.i as usize;
        let mut r: usize = 0;
        while r <= ind
            invariant
                r <= ind + 1,
                ind < 16,
                base == self.i,
                base + ind < MEM_SIZE,
                self.pc == old(self).pc,
                self.i == old(self).i,
                self.stack@ == old(self).stack@,
                self.pressed@ == old(self).pressed@,
                self.v@ == mem@.subrange(base as int, base + r) + old(self).v@.subrange(r as int, 16),
            decreases ind + 1 - r,
        {
            self.v[r] = mem.mem[base + r];
            r = r + 1;
        }
    }

    /// `Fx33`: writes the hundreds, tens and ones of register `x` to memory
    /// at the index register's address and the two behind it. All three
    /// must lie before the end of memory.
    pub fn bcd(&self, instr: u16, mem: &mut Memory)
        requires
            self@.i + 2 < MEM_SIZE,
        ensures
            final(mem)@ == self@.bcd(instr, old(mem)@),
    {
        let x = reg_x(instr);
        let mut val = self.v[x];
        let digit3 = val % 10;
        val = val / 10;
        let digit2 = val % 10;
        val = val / 10;
        let digit1 = val % 10;
        let base = self.i as usize;
        mem.mem[base] = digit1;
        mem.mem[base + 1] = digit2;
        mem.mem[base + 2] = digit3;
    }

    /// `Fx1E`: adds register `x` to the index register. Where the sum leaves
    /// the 12-bit address space the flag register becomes 1; else it stays.
    pub fn increment_i(&mut self, instr: u16)
        ensures
            final(self)@ == old(self)@.increment_i(instr),
    {
        let x = reg_x(instr);
        let val = self.v[x];
        let old_i = self.i as u32;
        let result = old_i + val as u32;
        if result >= 4096 {
            self.v[FLAG] = 1
        }
        assert(result & 0xFFFF == result % 0x10000) by (bit_vector);
        self.i = (result & 0xFFFF) as u16;
    }

    /// `Fx15`: sets the delay counter to register `x`.
    pub fn set_delay(&self, instr: u16, timer: &mut Timer)
        ensures
            final(timer)@ == (TimerView { delay: self@.v[op_x(instr)], ..old(timer)@ }),
    {
        let x_ind = reg_x(instr);
        let val = self.v[x_ind];
        timer.set_delay(val);
    }

    /// `Fx18`: sets the sound counter to register `x`.
    pub fn set_sound(&self, instr: u16, timer: &mut Timer)
        ensures
            final(timer)@ == (TimerView { sound: self@.v[op_x(instr)], ..old(timer)@ }),
    {
        let x_ind = reg_x(instr);
        let val = self.v[x_ind];
        timer.set_sound(val);
    }

    /// `Fx07`: sets register `x` to the delay counter.
    pub fn get_delay(&mut self, instr: u16, timer: &Timer)
        ensures
            final(self)@ == old(self)@.with_reg(op_x(instr), timer@.delay),
    {
        let x_ind = reg_x(instr);
        let val = timer.get_delay();
        self.v[x_ind] = val;
    }

    /// The state of all sixteen keys.
    pub fn get_new_key_pressed_state(disp: &Display) -> (new_pressed: HashMap<u8, bool>)
        ensures
            new_pressed@ == snapshot(disp@),
    {
        broadcast use vstd::std_specs::hash::group_hash_axioms;

        let mut new_pressed: HashMap<u8, bool> = HashMap::new();
        let mut key: u8 = 0;
        while key <= 0xF
            invariant
                key <= 0x10,
                forall|k: u8| new_pressed@.contains_key(k) <==> k < key,
                forall|k: u8| k < key ==> new_pressed@[k] == disp@.key_down(k),
            decreases 0x10 - key,
        {
            match disp.get_key_state(key) {
                Ok(val) => {
                    new_pressed.insert(key, val);
                },
                Err(_) => unreached(),
            }
            key = key + 1;
        }
        assert(new_pressed@ =~= snapshot(disp@));
        new_pressed
    }

    /// Looks for a key that is down in the stored snapshot and up in
    /// `new_pressed`. Where there are several, which of them is returned is
    /// left open.
    pub fn released_key(&self, new_pressed: &HashMap<u8, bool>) -> (choice: Option<u8>)
        requires
            covers_pressed(self@.pressed, new_pressed@),
        ensures
            release_choice(self@.pressed, new_pressed@, choice),
    {
        broadcast use vstd::std_specs::hash::group_hash_axioms;

        for kv in it: self.pressed.iter()
            invariant
                covers_pressed(self@.pressed, new_pressed@),
                it.seq() == spec_hash_map_iter(&self.pressed).remaining(),
                forall|j: int|
                    0 <= j < it.index() ==> !release_edge(
                        self@.pressed,
                        new_pressed@,
                        *(#[trigger] it.seq()[j]).0,
                    ),
        {
            let (k, v) = kv;
            assert(self@.pressed.contains_key(*k) && self@.pressed[*k] == *v);
            if *v {
                match new_pressed.get(k) {
                    Some(now) => {
                        if !*now {
                            return Some(*k);
                        }
                    },
                    None => unreached(),
                }
            }
        }
        assert forall|key: u8| !release_edge(self@.pressed, new_pressed@, key) by {
            if self@.pressed.contains_key(key) {
                let seen = spec_hash_map_iter(&self.pressed).remaining();
                assert(seen.contains((&key, &self@.pressed[key])));
                let j = choose|j: int| 0 <= j < seen.len() && seen[j] == (&key, &self@.pressed[key]);
                assert(!release_edge(self@.pressed, new_pressed@, *seen[j].0));
            }
        }
        None
    }

    /// `Fx0A` with the state of the keys in `new_pressed`. Where a key that
    /// was down in the stored snapshot is up now, register `x` becomes that
    /// key and the stored snapshot is dropped. Else `new_pressed` is stored
    /// and the program counter goes back by one instruction, so that the
    /// instruction is executed again.
    pub fn check_key_state(&mut self, new_pressed: HashMap<u8, bool>, instr: u16)
        requires
            covers_pressed(old(self)@.pressed, new_pressed@),
            no_release(old(self)@.pressed, new_pressed@) ==> old(self)@.pc >= 2,
        ensures
            exists|choice: Option<u8>|
                release_choice(old(self)@.pressed, new_pressed@, choice) && final(self)@ == old(
                    self,
                )@.check_key_state(new_pressed@, instr, choice),
    {
        let choice = self.released_key(&new_pressed);
        match choice {
            Some(k) => {
                let x_ind = reg_x(instr);
                self.v[x_ind] = k;
                self.pressed.clear();
            },
            None => {
                self.pressed = new_pressed;
                self.pc -= 2;
            },
        }
        assert(self@ == old(self)@.check_key_state(new_pressed@, instr, choice));
    }

    /// `Fx0A`: looks at the keys and waits for one to be released.
    pub fn get_key(&mut self, instr: u16, disp: &Display)
        requires
            covers_pressed(old(self)@.pressed, snapshot(disp@)),
            no_release(old(self)@.pressed, snapshot(disp@)) ==> old(self)@.pc >= 2,
        ensures
            exists|choice: Option<u8>|
                release_choice(old(self)@.pressed, snapshot(disp@), choice) && final(self)@ == old(
                    self,
                )@.check_key_state(snapshot(disp@), instr, choice),
    {
        let new_pressed = Cpu::get_new_key_pressed_state(disp);
        self.check_key_state(new_pressed, instr);
    }

    /// The origin and the rows of the sprite that `Dxyn` draws: registers
    /// `x` and `y` modulo the width and the height of the frame buffer, and
    /// the `n` bytes at the index register's address, which must lie before
    /// the end of memory.
    pub fn get_sprite(&self, instr: u16, mem: &Memory) -> (res: (u8, u8, Vec<u8>))
        requires
            self@.i + op_n(instr) <= MEM_SIZE,
        ensures
            (res.0, res.1, res.2@) == self@.get_sprite(instr, mem@),
    {
        let x_reg_ind = reg_x(instr);
        let y_reg_ind = reg_y(instr);
        let x = self.v[x_reg_ind] % (WIDTH as u8);
        let y = self.v[y_reg_ind] % (HEIGHT as u8);
        let n = nibble(instr) as usize;
        let base = self.i as usize;
        let mut sprite: Vec<u8> = Vec::new();
        let mut ind: usize = 0;
        while ind < n
            invariant
                ind <= n,
                base + n <= MEM_SIZE,
                sprite@ == mem@.subrange(base as int, base + ind),
            decreases n - ind,
        {
            sprite.push(mem.mem[base + ind]);
            ind = ind + 1;
        }
        (x, y, sprite)
    }

    /// `Cxnn` with the random byte `byte`: sets register `x` to `byte & nn`.
    pub fn random_with(&mut self, instr: u16, byte: u8)
        ensures
            final(self)@ == old(self)@.random_with(instr, byte),
    {
        let x_ind = reg_x(instr);
        let nn = low_byte(instr);
        self.v[x_ind] = byte & nn;
    }

    /// `Cxnn`: sets register `x` to a random byte masked by `nn`.
    pub fn random(&mut self, instr: u16)
        ensures
            exists|byte: u8| final(self)@ == old(self)@.random_with(instr, byte),
    {
        let random_num = random_byte();
        self.random_with(instr, random_num);
    }

    /// `Dxyn`: draws the sprite of `n` rows at the index register's address
    /// at the place that registers `x` and `y` give, and sets the flag
    /// register to 1 if a lit pixel went dark, else to 0. A sprite that
    /// reaches past the end of memory is refused and nothing is drawn.
    pub fn handle_draw(&mut self, instr: u16, mem: &Memory, disp: &mut Display) -> (res: Result<
        i32,
        Error,
    >)
        ensures
            (final(self)@, final(disp)@, res) == old(self)@.handle_draw(instr, mem@, old(disp)@),
    {
        if self.i as usize + nibble(instr) as usize > MEM_SIZE {
            return Err(Error::OutOfBounds);
        }
        let (x, y, sprite) = self.get_sprite(instr, mem);
        self.v[FLAG] = disp.draw(x, y, &sprite);
        Ok(0)
    }

    /// `Ex9E`: skips the next instruction if the key that register `x`
    /// names is down. A register that names no key is refused.
    pub fn key_pressed(&mut self, instr: u16, disp: &Display) -> (res: Result<i32, Error>)
        requires
            old(self)@.v[op_x(instr)] <= 0xF && disp@.key_down(old(self)@.v[op_x(instr)]) ==> old(
                self,
            )@.pc + 2 <= u16::MAX,
        ensures
            (final(self)@, res) == old(self)@.key_pressed(instr, disp@),
    {
        let x_ind = reg_x(instr);
        let vx = self.v[x_ind];
        let key_state = match disp.get_key_state(vx) {
            Ok(key_state) => key_state,
            Err(e) => {
                return Err(e);
            },
        };
        if key_state == true {
            self.pc += 2;
        }
        Ok(0)
    }

    /// `ExA1`: skips the next instruction if the key that register `x`
    /// names is up. A register that names no key is refused.
    pub fn key_not_pressed(&mut self, instr: u16, disp: &Display) -> (res: Result<i32, Error>)
        requires
            old(self)@.v[op_x(instr)] <= 0xF && !disp@.key_down(old(self)@.v[op_x(instr)]) ==> old(
                self,
            )@.pc + 2 <= u16::MAX,
        ensures
            (final(self)@, res) == old(self)@.key_not_pressed(instr, disp@),
    {
        let x_ind = reg_x(instr);
        let vx = self.v[x_ind];
        let key_state = match disp.get_key_state(vx) {
            Ok(key_state) => key_state,
            Err(e) => {
                return Err(e);
            },
        };
        if key_state == false {
            self.pc += 2;
        }
        Ok(0)
    }

    /// The family `Ex__`: executes the member that the low byte names, or
    /// fails with the instruction where it names none.
    pub fn handle_e_instructions(&mut self, instr: u16, disp: &Display) -> (res: Result<i32, Error>)
        requires
            old(self)@.key_skips(instr, disp@) ==> old(self)@.pc + 2 <= u16::MAX,
        ensures
            (final(self)@, res) == old(self)@.handle_e_instructions(instr, disp@),
    {
        match low_byte(instr) {
            0x9E => self.key_pressed(instr, disp),
            0xA1 => self.key_not_pressed(instr, disp),
            _ => Err(Error::UnhandledSubOpcode(instr)),
        }
    }

    /// The family `Fx__`: executes the member that the low byte names, or
    /// fails with the instruction where it names none. The part of the
    /// machine that the member works on must be there. A store, a load or a
    /// decimal conversion that reaches past the end of memory is refused.
    pub fn handle_f_instructions(
        &mut self,
        instr: u16,
        mem: Option<&mut Memory>,
        timer: Option<&mut Timer>,
        disp: Option<&Display>,
    ) -> (res: Result<i32, Error>)
        requires
            (MachineView {
                cpu: old(self)@,
                disp: seen(disp),
                mem: held(mem),
                timer: held(timer),
            }).accepts_f(instr),
        ensures
            (MachineView {
                cpu: old(self)@,
                disp: seen(disp),
                mem: held(mem),
                timer: held(timer),
            }).f_instruction_gives(
                instr,
                MachineView {
                    cpu: final(self)@,
                    disp: seen(disp),
                    mem: match mem {
                        Some(m) => Some(final(m)@),
                        None => None,
                    },
                    timer: match timer {
                        Some(t) => Some(final(t)@),
                        None => None,
                    },
                },
                res,
            ),
    {
        let ghost pre = MachineView {
            cpu: self@,
            disp: seen(disp),
            mem: held(mem),
            timer: held(timer),
        };
        match low_byte(instr) {
            0x0A => {
                self.get_key(instr, disp.unwrap());
                let ghost choice = choose|choice: Option<u8>|
                    release_choice(pre.cpu.pressed, snapshot(pre.disp->0), choice) && self@
                        == pre.cpu.check_key_state(snapshot(pre.disp->0), instr, choice);
                assert(pre.handle_f_instructions(instr, choice) == (
                    MachineView { cpu: self@, ..pre },
                    Ok::<i32, Error>(0),
                ));
            },
            0x07 => {
                self.get_delay(instr, &*timer.unwrap());
                assert(pre.handle_f_instructions(instr, None) == (
                    MachineView { cpu: self@, ..pre },
                    Ok::<i32, Error>(0),
                ));
            },
            0x15 => {
                let t = timer.unwrap();
                self.set_delay(instr, t);
                assert(pre.handle_f_instructions(instr, None) == (
                    MachineView { timer: Some(t@), ..pre },
                    Ok::<i32, Error>(0),
                ));
            },
            0x18 => {
                let t = timer.unwrap();
                self.set_sound(instr, t);
                assert(pre.handle_f_instructions(instr, None) == (
                    MachineView { timer: Some(t@), ..pre },
                    Ok::<i32, Error>(0),
                ));
            },
            0x1E => {
                self.increment_i(instr);
                assert(pre.handle_f_instructions(instr, None) == (
                    MachineView { cpu: self@, ..pre },
                    Ok::<i32, Error>(0),
                ));
            },
            0x29 => {
                self.font_character(instr, &*mem.unwrap());
                assert(pre.handle_f_instructions(instr, None) == (
                    MachineView { cpu: self@, ..pre },
                    Ok::<i32, Error>(0),
                ));
            },
            0x33 => {
                let m = mem.unwrap();
                if self.i as usize + 2 >= MEM_SIZE {
                    assert(pre.handle_f_instructions(instr, None) == (
                        pre,
                        Err::<i32, Error>(Error::OutOfBounds),
                    ));
                    return Err(Error::OutOfBounds);
                }
                self.bcd(instr, m);
                assert(pre.handle_f_instructions(instr, None) == (
                    MachineView { mem: Some(m@), ..pre },
                    Ok::<i32, Error>(0),
                ));
            },
            0x55 => {
                let m = mem.unwrap();
                if self.i as usize + reg_x(instr) >= MEM_SIZE {
                    assert(pre.handle_f_instructions(instr, None) == (
                        pre,
                        Err::<i32, Error>(Error::OutOfBounds),
                    ));
                    return Err(Error::OutOfBounds);
                }
                self.store(instr, m);
                assert(pre.handle_f_instructions(instr, None) == (
                    MachineView { mem: Some(m@), ..pre },
                    Ok::<i32, Error>(0),
                ));
            },
            0x65 => {
                let m = mem.unwrap();
                if self.i as usize + reg_x(instr) >= MEM_SIZE {
                    assert(pre.handle_f_instructions(instr, None) == (
                        pre,
                        Err::<i32, Error>(Error::OutOfBounds),
                    ));
                    return Err(Error::OutOfBounds);
                }
                self.load(instr, &*m);
                assert(pre.handle_f_instructions(instr, None) == (
                    MachineView { cpu: self@, ..pre },
                    Ok::<i32, Error>(0),
                ));
            },
            _ => {
                assert(pre.handle_f_instructions(instr, None) == (
                    pre,
                    Err::<i32, Error>(Error::UnhandledSubOpcode(instr)),
                ));
                return Err(Error::UnhandledSubOpcode(instr));
            },
        }
        Ok(0)
    }

    /// Whether every key that is down in the stored snapshot is one of the
    /// sixteen keys, so that every snapshot of a display covers it.
    pub fn pressed_on_keypad(&self) -> (ok: bool)
        ensures
            ok == forall|key: u8|
                self@.pressed.contains_key(key) && self@.pressed[key] ==> key <= 0xF,
    {
        broadcast use vstd::std_specs::hash::group_hash_axioms;

        for kv in it: self.pressed.iter()
            invariant
                it.seq() == spec_hash_map_iter(&self.pressed).remaining(),
                forall|j: int|
                    0 <= j < it.index() ==> (*(#[trigger] it.seq()[j]).1 ==> *it.seq()[j].0 <= 0xF),
        {
            let (k, v) = kv;
            assert(self@.pressed.contains_key(*k) && self@.pressed[*k] == *v);
            if *v && *k > 0xF {
                return false;
            }
        }
        assert forall|key: u8|
            self@.pressed.contains_key(key) && self@.pressed[key] implies key <= 0xF by {
            let seen = spec_hash_map_iter(&self.pressed).remaining();
            assert(seen.contains((&key, &self@.pressed[key])));
            let j = choose|j: int| 0 <= j < seen.len() && seen[j] == (&key, &self@.pressed[key]);
            assert(*seen[j].1 ==> *seen[j].0 <= 0xF);
        }
        true
    }

    /// Whether `decode` can execute `instr` on this interpreter and on the
    /// display, the memory and the timers given: whether they meet what
    /// `decode` requires.
    pub fn can_decode(
        &self,
        instr: u16,
        disp: Option<&Display>,
        mem: Option<&Memory>,
        timer: Option<&Timer>,
    ) -> (ok: bool)
        ensures
            ok == (MachineView {
                cpu: self@,
                disp: seen(disp),
                mem: seen(mem),
                timer: seen(timer),
            }).accepts(instr),
    {
        let x = reg_x(instr);
        let y = reg_y(instr);
        let nn = low_byte(instr);
        let can_skip = self.pc <= u16::MAX - 2;
        match instr {
            0x00e0 => true,
            0x00ee => self.stack.len() > 0,
            _ => match family(instr) {
                0x3 => self.v[x] != nn || can_skip,
                0x4 => self.v[x] == nn || can_skip,
                0x5 => self.v[x] != self.v[y] || can_skip,
                0x9 => self.v[x] == self.v[y] || can_skip,
                0xD => disp.is_some() && mem.is_some(),
                0xE => match disp {
                    Some(d) => match d.get_key_state(self.v[x]) {
                        Ok(down) => !((nn == 0x9E && down) || (nn == 0xA1 && !down)) || can_skip,
                        Err(_) => true,
                    },
                    None => true,
                },
                0xF => match nn {
                    0x0A => match disp {
                        Some(d) => {
                            if !self.pressed_on_keypad() {
                                assert(!covers_pressed(self@.pressed, snapshot(d@))) by {
                                    let key = choose|key: u8|
                                        self@.pressed.contains_key(key) && self@.pressed[key]
                                            && key > 0xF;
                                    assert(!snapshot(d@).contains_key(key));
                                }
                                false
                            } else if self.pc >= 2 {
                                true
                            } else {
                                let now = Cpu::get_new_key_pressed_state(d);
                                self.released_key(&now).is_some()
                            }
                        },
                        None => false,
                    },
                    0x07 | 0x15 | 0x18 => timer.is_some(),
                    0x29 | 0x33 | 0x55 | 0x65 => mem.is_some(),
                    _ => true,
                },
                _ => true,
            },
        }
    }

    /// Executes the instruction `instr` on the interpreter and on the
    /// display, the memory and the timers that are handed over.
    ///
    /// An instruction that no family or no member of its family answers to
    /// fails with the instruction; a key skip on a register that names no
    /// key and a memory access past the end of memory fail too. A failed
    /// instruction changes nothing.
    pub fn decode(
        &mut self,
        instr: u16,
        disp: Option<&mut Display>,
        mem: Option<&mut Memory>,
        timer: Option<&mut Timer>,
    ) -> (res: Result<i32, Error>)
        requires
            (MachineView {
                cpu: old(self)@,
                disp: held(disp),
                mem: held(mem),
                timer: held(timer),
            }).accepts(instr),
        ensures
            (MachineView {
                cpu: old(self)@,
                disp: held(disp),
                mem: held(mem),
                timer: held(timer),
            }).decodes_to(
                instr,
                MachineView {
                    cpu: final(self)@,
                    disp: match disp {
                        Some(d) => Some(final(d)@),
                        None => None,
                    },
                    mem: match mem {
                        Some(m) => Some(final(m)@),
                        None => None,
                    },
                    timer: match timer {
                        Some(t) => Some(final(t)@),
                        None => None,
                    },
                },
                res,
            ),
    {
        let ghost pre = MachineView {
            cpu: self@,
            disp: held(disp),
            mem: held(mem),
            timer: held(timer),
        };
        match instr {
            0x00e0 => {
                if let Some(disp) = disp {
                    disp.clear();
                    assert(pre.decode(instr, 0, None) == (
                        MachineView { disp: Some(disp@), ..pre },
                        Ok::<i32, Error>(0),
                    ));
                } else {
                    assert(pre.decode(instr, 0, None) == (pre, Ok::<i32, Error>(0)));
                }
            },
            0x00ee => {
                self.return_routine();
                assert(pre.decode(instr, 0, None) == (
                    MachineView { cpu: self@, ..pre },
                    Ok::<i32, Error>(0),
                ));
            },
            _ => {
                match family(instr) {
                    0x1 => self.handle_jump(instr),
                    0x2 => self.subroutine(instr),
                    0x3 => self.skip_vx_equal(instr),
                    0x4 => self.skip_vx_ne(instr),
                    0x5 => self.skip_vx_vy_equal(instr),
                    0x9 => self.skip_vx_vy_not_equal(instr),
                    0xA => self.set_i(instr),
                    0x6 => self.set_v(instr),
                    0x7 => self.add_v(instr),
                    0x8 => {
                        let res = self.handle_logic_arith(instr);
                        assert(pre.decode(instr, 0, None) == (MachineView { cpu: self@, ..pre }, res));
                        return res;
                    },
                    0xC => {
                        self.random(instr);
                        let ghost byte = choose|byte: u8| self@ == pre.cpu.random_with(instr, byte);
                        assert(pre.decode(instr, byte, None) == (
                            MachineView { cpu: self@, ..pre },
                            Ok::<i32, Error>(0),
                        ));
                        return Ok(0);
                    },
                    0xD => {
                        let m = mem.unwrap();
                        let d = disp.unwrap();
                        let res = self.handle_draw(instr, &*m, d);
                        assert(pre.decode(instr, 0, None) == (
                            MachineView { cpu: self@, disp: Some(d@), ..pre },
                            res,
                        ));
                        return res;
                    },
                    0xE => {
                        if let Some(disp) = disp {
                            let res = self.handle_e_instructions(instr, &*disp);
                            assert(pre.decode(instr, 0, None) == (
                                MachineView { cpu: self@, ..pre },
                                res,
                            ));
                            return res;
                        } else {
                            assert(pre.decode(instr, 0, None) == (pre, Ok::<i32, Error>(0)));
                            return Ok(0);
                        }
                    },
                    0xF => {
                        let d: Option<&Display> = match disp {
                            Some(d) => Some(&*d),
                            None => None,
                        };
                        assert forall|post: MachineView, res: Result<i32, Error>|
                            pre.f_instruction_gives(instr, post, res) implies pre.decodes_to(
                            instr,
                            post,
                            res,
                        ) by {
                            lemma_f_instruction_decodes(pre, instr, post, res);
                        }
                        return self.handle_f_instructions(instr, mem, timer, d);
                    },
                    _ => {
                        assert(pre.decode(instr, 0, None) == (
                            pre,
                            Err::<i32, Error>(Error::UnknownOpcode(instr)),
                        ));
                        return Err(Error::UnknownOpcode(instr));
                    },
                }
                assert(pre.decode(instr, 0, None) == (
                    MachineView { cpu: self@, ..pre },
                    Ok::<i32, Error>(0),
                ));
            },
        }
        Ok(0)
    }

    /// One cycle: fetches the instruction at the program counter and
    /// executes it. Says whether the machine is to go on, to halt with a
    /// failure, or to stop because the program is at fault. After a failed
    /// fetch nothing has changed; after a fault the program counter stands
    /// behind the instruction that could not be executed.
    pub fn cycle(&mut self, mem: &mut Memory, disp: &mut Display, timer: &mut Timer) -> (outcome:
        Outcome)
        ensures
            (MachineView {
                cpu: old(self)@,
                disp: Some(old(disp)@),
                mem: Some(old(mem)@),
                timer: Some(old(timer)@),
            }).cycles_to(
                MachineView {
                    cpu: final(self)@,
                    disp: Some(final(disp)@),
                    mem: Some(final(mem)@),
                    timer: Some(final(timer)@),
                },
                outcome,
            ),
    {
        let ghost pre = MachineView {
            cpu: self@,
            disp: Some(disp@),
            mem: Some(mem@),
            timer: Some(timer@),
        };
        let instr = match self.fetch(&*mem) {
            Ok(instr) => instr,
            Err(e) => {
                assert(pre.cycle(0, None) == (pre, Outcome::Halt(e)));
                return Outcome::Halt(e);
            },
        };
        if !self.can_decode(instr, Some(&*disp), Some(&*mem), Some(&*timer)) {
            let ghost choice: Option<u8> = if no_release(pre.cpu.pressed, snapshot(disp@)) {
                None
            } else {
                Some(choose|key: u8| release_edge(pre.cpu.pressed, snapshot(disp@), key))
            };
            assert(pre.cycle(0, choice) == (pre.with_cpu(self@), Outcome::Fault));
            return Outcome::Fault;
        }
        assert forall|post: MachineView, res: Result<i32, Error>|
            pre.with_cpu(self@).decodes_to(instr, post, res) implies pre.cycles_to(
            post,
            match res {
                Ok(_) => Outcome::Continue,
                Err(e) => Outcome::Halt(e),
            },
        ) by {
            lemma_decoded_cycle(pre, instr, post, res);
        }
        match self.decode(instr, Some(disp), Some(mem), Some(timer)) {
            Ok(_) => Outcome::Continue,
            Err(e) => Outcome::Halt(e),
        }
    }
}

} // verus!
