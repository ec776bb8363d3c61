//! The machine in mathematical terms: the state of the interpreter as
//! plain values, and what each instruction makes of it.
//!
//! The executable interpreter in `cpu` is verified against the functions
//! of this module.

use vstd::prelude::*;
use crate::cpu::Outcome;
use crate::display::{blank, collides, drawn, DisplayView, HEIGHT, WIDTH};
use crate::error::Error;
use crate::mem::{font_addr, splice, MEM_SIZE, PROGRAM_ADDRESS};
use crate::opcode::{op_family, op_n, op_nn, op_nnn, op_x, op_y, word_of};
use crate::timer::TimerView;

verus! {

/// Index of the flag register.
pub const FLAG: usize = 0xF;

/// The difference `a - b` in 8 bits: `a - b` modulo 256.
pub open spec fn wrapping_difference(a: u8, b: u8) -> u8 {
    ((a - b) % 256) as u8
}

/// The sum `a + b` in 8 bits: `a + b` modulo 256.
pub open spec fn wrapping_sum(a: u8, b: u8) -> u8 {
    ((a + b) % 256) as u8
}

/// 1 if `a` is strictly greater than `b`, else 0.
pub open spec fn greater_flag(a: u8, b: u8) -> u8 {
    if a > b {
        1
    } else {
        0
    }
}

/// The three decimal digits of `val`: hundreds, tens, ones.
pub open spec fn decimal_digits(val: u8) -> Seq<u8> {
    seq![val / 100, (val / 10) % 10, val % 10]
}

/// Whether `key` was down in the snapshot `before` and is up in `now`.
pub open spec fn release_edge(before: Map<u8, bool>, now: Map<u8, bool>, key: u8) -> bool {
    before.contains_key(key) && before[key] && now.contains_key(key) && !now[key]
}

/// Whether no key that was down in `before` is up in `now`.
pub open spec fn no_release(before: Map<u8, bool>, now: Map<u8, bool>) -> bool {
    forall|key: u8| !release_edge(before, now, key)
}

/// Whether every key that is down in `before` is recorded in `now`.
pub open spec fn covers_pressed(before: Map<u8, bool>, now: Map<u8, bool>) -> bool {
    forall|key: u8| before.contains_key(key) && before[key] ==> now.contains_key(key)
}

/// Whether `choice` is a possible outcome of looking for a released key:
/// a key with a release edge, or none where there is no such key. Where
/// several keys were released at once, any of them may be chosen.
pub open spec fn release_choice(before: Map<u8, bool>, now: Map<u8, bool>, choice: Option<u8>) -> bool {
    match choice {
        Some(key) => release_edge(before, now, key),
        None => no_release(before, now),
    }
}

/// The state of all sixteen keys of a display.
pub open spec fn snapshot(disp: DisplayView) -> Map<u8, bool> {
    Map::new(|key: u8| key <= 0xF, |key: u8| disp.key_down(key))
}

/// What a `Cpu` holds.
#[verifier::ext_equal]
pub struct CpuView {
    /// The program counter.
    pub pc: u16,
    /// The index register.
    pub i: u16,
    /// The sixteen general registers; the last one is the flag register.
    pub v: Seq<u8>,
    /// The return addresses, the latest call last.
    pub stack: Seq<u16>,
    /// The keys as they were when the key-wait instruction last looked.
    pub pressed: Map<u8, bool>,
}

impl CpuView {
    /// A state with sixteen registers.
    pub open spec fn wf(self) -> bool {
        self.v.len() == 16
    }

    /// The state at power-on.
    pub open spec fn initial() -> CpuView {
        CpuView {
            pc: PROGRAM_ADDRESS as u16,
            i: 0,
            v: Seq::new(16, |r: int| 0u8),
            stack: Seq::empty(),
            pressed: Map::empty(),
        }
    }

    /// This state with register `r` set to `val`.
    pub open spec fn with_reg(self, r: int, val: u8) -> CpuView {
        CpuView { v: self.v.update(r, val), ..self }
    }

    /// This state with the program counter past the next instruction if `cond` holds.
    pub open spec fn skip_if(self, cond: bool) -> CpuView {
        if cond {
            CpuView { pc: (self.pc + 2) as u16, ..self }
        } else {
            self
        }
    }

    /// Whether both bytes of the next instruction lie inside memory.
    pub open spec fn can_fetch(self) -> bool {
        self.pc + 1 < MEM_SIZE
    }

    /// Fetch: the instruction at the program counter, high byte first, and
    /// the state with the program counter behind it. Where a byte of the
    /// instruction lies outside memory, the state stays and the fetch fails.
    pub open spec fn fetch(self, mem: Seq<u8>) -> (CpuView, Result<u16, Error>) {
        if self.can_fetch() {
            (
                CpuView { pc: (self.pc + 2) as u16, ..self },
                Ok(word_of(mem[self.pc as int], mem[self.pc + 1]) as u16),
            )
        } else {
            (self, Err(Error::FetchOutOfBounds))
        }
    }

    /// `Annn`: the index register becomes `nnn`.
    pub open spec fn set_i(self, instr: u16) -> CpuView {
        CpuView { i: op_nnn(instr) as u16, ..self }
    }

    /// `6xnn`: register `x` becomes `nn`.
    pub open spec fn set_v(self, instr: u16) -> CpuView {
        self.with_reg(op_x(instr), op_nn(instr) as u8)
    }

    /// `7xnn`: `nn` is added to register `x` modulo 256. No carry is noted.
    pub open spec fn add_v(self, instr: u16) -> CpuView {
        self.with_reg(op_x(instr), wrapping_sum(self.v[op_x(instr)], op_nn(instr) as u8))
    }

    /// `1nnn`: the program counter becomes `nnn`.
    pub open spec fn handle_jump(self, instr: u16) -> CpuView {
        CpuView { pc: op_nnn(instr) as u16, ..self }
    }

    /// `2nnn`: the program counter is pushed and becomes `nnn`.
    pub open spec fn subroutine(self, instr: u16) -> CpuView {
        CpuView { pc: op_nnn(instr) as u16, stack: self.stack.push(self.pc), ..self }
    }

    /// `00EE`: the program counter becomes the address that was pushed last.
    pub open spec fn return_routine(self) -> CpuView
        recommends
            self.stack.len() > 0,
    {
        CpuView { pc: self.stack.last(), stack: self.stack.drop_last(), ..self }
    }

    /// `3xnn`: skip if register `x` equals `nn`.
    pub open spec fn skip_vx_equal(self, instr: u16) -> CpuView {
        self.skip_if(self.v[op_x(instr)] == op_nn(instr))
    }

    /// `4xnn`: skip if register `x` differs from `nn`.
    pub open spec fn skip_vx_ne(self, instr: u16) -> CpuView {
        self.skip_if(self.v[op_x(instr)] != op_nn(instr))
    }

    /// `5xy0`: skip if registers `x` and `y` are equal.
    pub open spec fn skip_vx_vy_equal(self, instr: u16) -> CpuView {
        self.skip_if(self.v[op_x(instr)] == self.v[op_y(instr)])
    }

    /// `9xy0`: skip if registers `x` and `y` differ.
    pub open spec fn skip_vx_vy_not_equal(self, instr: u16) -> CpuView {
        self.skip_if(self.v[op_x(instr)] != self.v[op_y(instr)])
    }

    /// The state after the result `val` of an operation went to register
    /// `x` and `flag` to the flag register. The flag is written first: where
    /// `x` is the flag register itself, the result stays.
    pub open spec fn with_flagged_result(self, instr: u16, flag: u8, val: u8) -> CpuView {
        self.with_reg(FLAG as int, flag).with_reg(op_x(instr), val)
    }

    /// `8xy0`: register `x` becomes register `y`.
    pub open spec fn set_vx_to_vy(self, instr: u16) -> CpuView {
        self.with_reg(op_x(instr), self.v[op_y(instr)])
    }

    /// `8xy1`: register `x` becomes `x | y`.
    pub open spec fn logic_vx_or_vy(self, instr: u16) -> CpuView {
        self.with_reg(op_x(instr), self.v[op_x(instr)] | self.v[op_y(instr)])
    }

    /// `8xy2`: register `x` becomes `x & y`.
    pub open spec fn logic_vx_and_vy(self, instr: u16) -> CpuView {
        self.with_reg(op_x(instr), self.v[op_x(instr)] & self.v[op_y(instr)])
    }

    /// `8xy3`: register `x` becomes `x ^ y`.
    pub open spec fn logic_vx_xor_vy(self, instr: u16) -> CpuView {
        self.with_reg(op_x(instr), self.v[op_x(instr)] ^ self.v[op_y(instr)])
    }

    /// `8xy5`: register `x` becomes `x - y` modulo 256; the flag is 1 if `x > y`, else 0.
    pub open spec fn arith_vx_minus_vy(self, instr: u16) -> CpuView {
        let vx = self.v[op_x(instr)];
        let vy = self.v[op_y(instr)];
        self.with_flagged_result(instr, greater_flag(vx, vy), wrapping_difference(vx, vy))
    }

    /// `8xy7`: register `x` becomes `y - x` modulo 256; the flag is 1 if `y > x`, else 0.
    pub open spec fn arith_vy_minus_vx(self, instr: u16) -> CpuView {
        let vx = self.v[op_x(instr)];
        let vy = self.v[op_y(instr)];
        self.with_flagged_result(instr, greater_flag(vy, vx), wrapping_difference(vy, vx))
    }

    /// `8xyE`: register `x` is doubled modulo 256; the flag is its former highest bit.
    pub open spec fn left_shift(self, instr: u16) -> CpuView {
        let vx = self.v[op_x(instr)];
        self.with_flagged_result(instr, vx / 128, ((vx * 2) % 256) as u8)
    }

    /// `8xy6`: register `x` is halved; the flag is its former lowest bit.
    pub open spec fn right_shift(self, instr: u16) -> CpuView {
        let vx = self.v[op_x(instr)];
        self.with_flagged_result(instr, vx % 2, vx / 2)
    }

    /// The family `8xy_`, told apart by the last nibble.
    pub open spec fn handle_logic_arith(self, instr: u16) -> (CpuView, Result<i32, Error>) {
        let n = op_n(instr);
        if n == 0 {
            (self.set_vx_to_vy(instr), Ok(0))
        } else if n == 1 {
            (self.logic_vx_or_vy(instr), Ok(0))
        } else if n == 2 {
            (self.logic_vx_and_vy(instr), Ok(0))
        } else if n == 3 {
            (self.logic_vx_xor_vy(instr), Ok(0))
        } else if n == 5 {
            (self.arith_vx_minus_vy(instr), Ok(0))
        } else if n == 6 {
            (self.right_shift(instr), Ok(0))
        } else if n == 7 {
            (self.arith_vy_minus_vx(instr), Ok(0))
        } else if n == 0xE {
            (self.left_shift(instr), Ok(0))
        } else {
            (self, Err(Error::UnhandledSubOpcode(instr)))
        }
    }

    /// The digit whose glyph `Fx29` asks for: the low nibble of register `x`.
    pub open spec fn get_font_char(self, instr: u16) -> u8 {
        self.v[op_x(instr)] % 16
    }

    /// `Fx29`: the index register becomes the address of the glyph for the
    /// low nibble of register `x`.
    pub open spec fn font_character(self, instr: u16) -> CpuView {
        CpuView { i: font_addr(self.get_font_char(instr)) as u16, ..self }
    }

    /// `Fx55`: memory after the registers 0 to `x` went to the index
    /// register's address and the addresses behind it.
    pub open spec fn store(self, instr: u16, mem: Seq<u8>) -> Seq<u8> {
        splice(mem, self.i as int, self.v.subrange(0, op_x(instr) + 1))
    }

    /// `Fx65`: the registers 0 to `x` are read from the index register's
    /// address and the addresses behind it.
    pub open spec fn load(self, instr: u16, mem: Seq<u8>) -> CpuView {
        CpuView {
            v: mem.subrange(self.i as int, self.i + op_x(instr) + 1) + self.v.subrange(
                op_x(instr) + 1,
                16,
            ),
            ..self
        }
    }

    /// `Fx33`: memory after the three decimal digits of register `x` went
    /// to the index register's address and the two behind it.
    pub open spec fn bcd(self, instr: u16, mem: Seq<u8>) -> Seq<u8> {
        splice(mem, self.i as int, decimal_digits(self.v[op_x(instr)]))
    }

    /// `Fx1E`: register `x` is added to the index register. Where the sum
    /// leaves the 12-bit address space the flag becomes 1.
    pub open spec fn increment_i(self, instr: u16) -> CpuView {
        let sum = self.i + self.v[op_x(instr)];
        CpuView {
            i: (sum % 0x10000) as u16,
            v: if sum >= MEM_SIZE {
                self.v.update(FLAG as int, 1)
            } else {
                self.v
            },
            ..self
        }
    }

    /// `Cxnn`: register `x` becomes the random byte `byte` masked by `nn`.
    pub open spec fn random_with(self, instr: u16, byte: u8) -> CpuView {
        self.with_reg(op_x(instr), byte & (op_nn(instr) as u8))
    }

    /// The origin and the rows of the sprite that `Dxyn` draws: registers
    /// `x` and `y` modulo the width and the height of the frame buffer, and
    /// the `n` bytes at the index register's address.
    pub open spec fn get_sprite(self, instr: u16, mem: Seq<u8>) -> (u8, u8, Seq<u8>) {
        (
            (self.v[op_x(instr)] % (WIDTH as u8)) as u8,
            (self.v[op_y(instr)] % (HEIGHT as u8)) as u8,
            mem.subrange(self.i as int, self.i + op_n(instr)),
        )
    }

    /// `Fx0A` where the key `key` was released: register `x` holds the key
    /// and the stored snapshot is gone.
    pub open spec fn captured(self, instr: u16, key: u8) -> CpuView {
        CpuView { v: self.v.update(op_x(instr), key), pressed: Map::empty(), ..self }
    }

    /// `Fx0A` where no key was released: the snapshot `now` is stored and
    /// the program counter goes back to the instruction.
    pub open spec fn waiting(self, now: Map<u8, bool>) -> CpuView {
        CpuView { pc: (self.pc - 2) as u16, pressed: now, ..self }
    }

    /// `Fx0A` with the snapshot `now`, where looking for a released key
    /// gave `choice`.
    pub open spec fn check_key_state(self, now: Map<u8, bool>, instr: u16, choice: Option<u8>) -> CpuView {
        match choice {
            Some(key) => self.captured(instr, key),
            None => self.waiting(now),
        }
    }

    /// `Dxyn`: the sprite of `n` rows at the index register's address is
    /// drawn at the place that registers `x` and `y` give, and the flag
    /// register says whether a lit pixel went dark. A sprite that reaches
    /// past the end of memory is refused and nothing is drawn.
    pub open spec fn handle_draw(self, instr: u16, mem: Seq<u8>, disp: DisplayView) -> (
        CpuView,
        DisplayView,
        Result<i32, Error>,
    ) {
        if self.i + op_n(instr) > MEM_SIZE {
            (self, disp, Err(Error::OutOfBounds))
        } else {
            let (x, y, sprite) = self.get_sprite(instr, mem);
            let flag = if collides(disp.pixels, x as int, y as int, sprite) {
                1u8
            } else {
                0u8
            };
            (
                self.with_reg(FLAG as int, flag),
                DisplayView { pixels: drawn(disp.pixels, x as int, y as int, sprite), ..disp },
                Ok(0),
            )
        }
    }

    /// Skip if the key that register `x` names is down, where `down` holds,
    /// or up, where it does not. A register that names no key is refused.
    pub open spec fn key_skip(self, instr: u16, disp: DisplayView, down: bool) -> (
        CpuView,
        Result<i32, Error>,
    ) {
        let key = self.v[op_x(instr)];
        if key > 0xF {
            (self, Err(Error::InvalidKeyCode(key as u32)))
        } else {
            (self.skip_if(disp.key_down(key) == down), Ok(0))
        }
    }

    /// `Ex9E`: skip if the key that register `x` names is down.
    pub open spec fn key_pressed(self, instr: u16, disp: DisplayView) -> (CpuView, Result<i32, Error>) {
        self.key_skip(instr, disp, true)
    }

    /// `ExA1`: skip if the key that register `x` names is up.
    pub open spec fn key_not_pressed(self, instr: u16, disp: DisplayView) -> (
        CpuView,
        Result<i32, Error>,
    ) {
        self.key_skip(instr, disp, false)
    }

    /// The family `Ex__`, told apart by the low byte.
    pub open spec fn handle_e_instructions(self, instr: u16, disp: DisplayView) -> (
        CpuView,
        Result<i32, Error>,
    ) {
        if op_nn(instr) == 0x9E {
            self.key_pressed(instr, disp)
        } else if op_nn(instr) == 0xA1 {
            self.key_not_pressed(instr, disp)
        } else {
            (self, Err(Error::UnhandledSubOpcode(instr)))
        }
    }

    /// Whether a member of the family `Ex__` skips the next instruction.
    pub open spec fn key_skips(self, instr: u16, disp: DisplayView) -> bool {
        let key = self.v[op_x(instr)];
        key <= 0xF && ((op_nn(instr) == 0x9E && disp.key_down(key)) || (op_nn(instr) == 0xA1
            && !disp.key_down(key)))
    }
}

/// What one instruction works on: the interpreter, and the display, the
/// memory and the timers as far as they are handed to it.
#[verifier::ext_equal]
pub struct MachineView {
    /// The interpreter.
    pub cpu: CpuView,
    /// The display, if the instruction is handed one.
    pub disp: Option<DisplayView>,
    /// The memory, if the instruction is handed one.
    pub mem: Option<Seq<u8>>,
    /// The timers, if the instruction is handed them.
    pub timer: Option<TimerView>,
}

impl MachineView {
    /// This machine, and success.
    pub open spec fn done(self) -> (MachineView, Result<i32, Error>) {
        (self, Ok(0))
    }

    /// This machine, and the failure `e`.
    pub open spec fn refused(self, e: Error) -> (MachineView, Result<i32, Error>) {
        (self, Err(e))
    }

    /// This machine with the interpreter in the state `cpu`.
    pub open spec fn with_cpu(self, cpu: CpuView) -> MachineView {
        MachineView { cpu, ..self }
    }

    /// `00E0`: the display, if there is one, goes dark.
    pub open spec fn clear(self) -> MachineView {
        MachineView {
            disp: match self.disp {
                Some(d) => Some(DisplayView { pixels: blank(), ..d }),
                None => None,
            },
            ..self
        }
    }

    /// The family `Fx__`, told apart by the low byte. `choice` is what
    /// looking for a released key gave; only `Fx0A` asks for it. A store,
    /// a load or a decimal conversion that reaches past the end of memory
    /// is refused.
    pub open spec fn handle_f_instructions(self, instr: u16, choice: Option<u8>) -> (
        MachineView,
        Result<i32, Error>,
    ) {
        let nn = op_nn(instr);
        let x = op_x(instr);
        let cpu = self.cpu;
        if nn == 0x0A {
            self.with_cpu(cpu.check_key_state(snapshot(self.disp->0), instr, choice)).done()
        } else if nn == 0x07 {
            self.with_cpu(cpu.with_reg(x, self.timer->0.delay)).done()
        } else if nn == 0x15 {
            MachineView { timer: Some(TimerView { delay: cpu.v[x], ..self.timer->0 }), ..self }.done()
        } else if nn == 0x18 {
            MachineView { timer: Some(TimerView { sound: cpu.v[x], ..self.timer->0 }), ..self }.done()
        } else if nn == 0x1E {
            self.with_cpu(cpu.increment_i(instr)).done()
        } else if nn == 0x29 {
            self.with_cpu(cpu.font_character(instr)).done()
        } else if nn == 0x33 {
            if cpu.i + 2 < MEM_SIZE {
                MachineView { mem: Some(cpu.bcd(instr, self.mem->0)), ..self }.done()
            } else {
                self.refused(Error::OutOfBounds)
            }
        } else if nn == 0x55 {
            if cpu.i + x < MEM_SIZE {
                MachineView { mem: Some(cpu.store(instr, self.mem->0)), ..self }.done()
            } else {
                self.refused(Error::OutOfBounds)
            }
        } else if nn == 0x65 {
            if cpu.i + x < MEM_SIZE {
                self.with_cpu(cpu.load(instr, self.mem->0)).done()
            } else {
                self.refused(Error::OutOfBounds)
            }
        } else {
            self.refused(Error::UnhandledSubOpcode(instr))
        }
    }

    /// What the instruction `instr` makes of this machine, and whether it
    /// succeeds. `byte` is the random byte and `choice` the outcome of
    /// looking for a released key; only `Cxnn` and `Fx0A` ask for them.
    pub open spec fn decode(self, instr: u16, byte: u8, choice: Option<u8>) -> (
        MachineView,
        Result<i32, Error>,
    ) {
        let family = op_family(instr);
        let cpu = self.cpu;
        if instr == 0x00E0 {
            self.clear().done()
        } else if instr == 0x00EE {
            self.with_cpu(cpu.return_routine()).done()
        } else if family == 0x1 {
            self.with_cpu(cpu.handle_jump(instr)).done()
        } else if family == 0x2 {
            self.with_cpu(cpu.subroutine(instr)).done()
        } else if family == 0x3 {
            self.with_cpu(cpu.skip_vx_equal(instr)).done()
        } else if family == 0x4 {
            self.with_cpu(cpu.skip_vx_ne(instr)).done()
        } else if family == 0x5 {
            self.with_cpu(cpu.skip_vx_vy_equal(instr)).done()
        } else if family == 0x9 {
            self.with_cpu(cpu.skip_vx_vy_not_equal(instr)).done()
        } else if family == 0xA {
            self.with_cpu(cpu.set_i(instr)).done()
        } else if family == 0x6 {
            self.with_cpu(cpu.set_v(instr)).done()
        } else if family == 0x7 {
            self.with_cpu(cpu.add_v(instr)).done()
        } else if family == 0x8 {
            (self.with_cpu(cpu.handle_logic_arith(instr).0), cpu.handle_logic_arith(instr).1)
        } else if family == 0xC {
            self.with_cpu(cpu.random_with(instr, byte)).done()
        } else if family == 0xD {
            let (cpu, disp, res) = cpu.handle_draw(instr, self.mem->0, self.disp->0);
            (MachineView { cpu, disp: Some(disp), ..self }, res)
        } else if family == 0xE {
            if self.disp is Some {
                (
                    self.with_cpu(cpu.handle_e_instructions(instr, self.disp->0).0),
                    cpu.handle_e_instructions(instr, self.disp->0).1,
                )
            } else {
                self.done()
            }
        } else if family == 0xF {
            self.handle_f_instructions(instr, choice)
        } else {
            self.refused(Error::UnknownOpcode(instr))
        }
    }

    /// Whether `post` and `res` are a possible outcome of executing the
    /// member `instr` of the family `Fx__` on this machine: the outcome for
    /// some key among those that were released.
    pub open spec fn f_instruction_gives(
        self,
        instr: u16,
        post: MachineView,
        res: Result<i32, Error>,
    ) -> bool {
        exists|choice: Option<u8>|
            (op_nn(instr) == 0x0A ==> release_choice(
                self.cpu.pressed,
                snapshot(self.disp->0),
                choice,
            )) && #[trigger] self.handle_f_instructions(instr, choice) == (post, res)
    }

    /// Whether `post` and `res` are a possible outcome of executing `instr`
    /// on this machine: the outcome for some random byte and for some key
    /// among those that were released.
    pub open spec fn decodes_to(self, instr: u16, post: MachineView, res: Result<i32, Error>) -> bool {
        exists|byte: u8, choice: Option<u8>|
            (self.waits_for_key(instr) ==> release_choice(
                self.cpu.pressed,
                snapshot(self.disp->0),
                choice,
            )) && #[trigger] self.decode(instr, byte, choice) == (post, res)
    }

    /// Whether `instr` is the key-wait instruction `Fx0A`.
    pub open spec fn waits_for_key(self, instr: u16) -> bool {
        op_family(instr) == 0xF && op_nn(instr) == 0x0A
    }

    /// Whether moving the program counter past the next instruction keeps
    /// it within 16 bits.
    pub open spec fn can_skip(self) -> bool {
        self.cpu.pc + 2 <= u16::MAX
    }

    /// Whether a member of the family `Fx__` can be executed on this
    /// machine: the part of the machine that it works on is there, and
    /// `Fx0A` can go back by one instruction where it has to.
    pub open spec fn accepts_f(self, instr: u16) -> bool {
        let nn = op_nn(instr);
        if nn == 0x0A {
            &&& self.disp is Some
            &&& covers_pressed(self.cpu.pressed, snapshot(self.disp->0))
            &&& no_release(self.cpu.pressed, snapshot(self.disp->0)) ==> self.cpu.pc >= 2
        } else if nn == 0x07 || nn == 0x15 || nn == 0x18 {
            self.timer is Some
        } else if nn == 0x29 || nn == 0x33 || nn == 0x55 || nn == 0x65 {
            self.mem is Some
        } else {
            true
        }
    }

    /// Whether `instr` can be executed on this machine. This leaves out a
    /// return with no call pending, an instruction that works on a part of
    /// the machine that was not handed over, and a program counter that
    /// would leave its 16 bits.
    pub open spec fn accepts(self, instr: u16) -> bool {
        let family = op_family(instr);
        let cpu = self.cpu;
        if instr == 0x00E0 {
            true
        } else if instr == 0x00EE {
            cpu.stack.len() > 0
        } else if family == 0x3 {
            cpu.v[op_x(instr)] == op_nn(instr) ==> self.can_skip()
        } else if family == 0x4 {
            cpu.v[op_x(instr)] != op_nn(instr) ==> self.can_skip()
        } else if family == 0x5 {
            cpu.v[op_x(instr)] == cpu.v[op_y(instr)] ==> self.can_skip()
        } else if family == 0x9 {
            cpu.v[op_x(instr)] != cpu.v[op_y(instr)] ==> self.can_skip()
        } else if family == 0xD {
            self.disp is Some && self.mem is Some
        } else if family == 0xE {
            self.disp is Some && cpu.key_skips(instr, self.disp->0) ==> self.can_skip()
        } else if family == 0xF {
            self.accepts_f(instr)
        } else {
            true
        }
    }

    /// One cycle of a machine with all its parts: the instruction at the
    /// program counter is fetched and executed. A fetch or an instruction
    /// that fails halts the machine with its failure; an instruction that
    /// cannot be executed, such as a return with no call pending, is a
    /// fault of the program. `byte` and `choice` are as in `decode`.
    pub open spec fn cycle(self, byte: u8, choice: Option<u8>) -> (MachineView, Outcome)
        recommends
            self.mem is Some,
    {
        match self.cpu.fetch(self.mem->0) {
            (_, Err(e)) => (self, Outcome::Halt(e)),
            (cpu, Ok(instr)) => {
                let fetched = self.with_cpu(cpu);
                if fetched.accepts(instr) {
                    match fetched.decode(instr, byte, choice) {
                        (post, Ok(_)) => (post, Outcome::Continue),
                        (post, Err(e)) => (post, Outcome::Halt(e)),
                    }
                } else {
                    (fetched, Outcome::Fault)
                }
            },
        }
    }

    /// Whether `post` and `outcome` are a possible result of one cycle of
    /// this machine: the result for some random byte and for some key
    /// among those that were released.
    pub open spec fn cycles_to(self, post: MachineView, outcome: Outcome) -> bool {
        exists|byte: u8, choice: Option<u8>|
            (self.cpu.fetch(self.mem->0).1 matches Ok(instr) && self.waits_for_key(instr)
                ==> release_choice(self.cpu.pressed, snapshot(self.disp->0), choice))
                && #[trigger] self.cycle(byte, choice) == (post, outcome)
    }
}

/// Every outcome of a member of the family `Fx__` is an outcome of
/// decoding it.
pub proof fn lemma_f_instruction_decodes(
    pre: MachineView,
    instr: u16,
    post: MachineView,
    res: Result<i32, Error>,
)
    requires
        op_family(instr) == 0xF,
        pre.f_instruction_gives(instr, post, res),
    ensures
        pre.decodes_to(instr, post, res),
{
    let choice = choose|choice: Option<u8>|
        (op_nn(instr) == 0x0A ==> release_choice(pre.cpu.pressed, snapshot(pre.disp->0), choice))
            && #[trigger] pre.handle_f_instructions(instr, choice) == (post, res);
    assert(pre.decode(instr, 0, choice) == (post, res));
}

/// Every outcome of decoding the instruction that was fetched is an
/// outcome of the cycle.
pub proof fn lemma_decoded_cycle(
    pre: MachineView,
    instr: u16,
    post: MachineView,
    res: Result<i32, Error>,
)
    requires
        pre.mem is Some,
        pre.cpu.fetch(pre.mem->0).1 == Ok::<u16, Error>(instr),
        pre.with_cpu(pre.cpu.fetch(pre.mem->0).0).accepts(instr),
        pre.with_cpu(pre.cpu.fetch(pre.mem->0).0).decodes_to(instr, post, res),
    ensures
        pre.cycles_to(
            post,
            match res {
                Ok(_) => Outcome::Continue,
                Err(e) => Outcome::Halt(e),
            },
        ),
{
    let fetched = pre.with_cpu(pre.cpu.fetch(pre.mem->0).0);
    let (byte, choice) = choose|byte: u8, choice: Option<u8>|
        (fetched.waits_for_key(instr) ==> release_choice(
            fetched.cpu.pressed,
            snapshot(fetched.disp->0),
            choice,
        )) && #[trigger] fetched.decode(instr, byte, choice) == (post, res);
    assert(pre.cycle(byte, choice) == (
        post,
        match res {
            Ok(_) => Outcome::Continue,
            Err(e) => Outcome::Halt(e),
        },
    ));
}

} // verus!
