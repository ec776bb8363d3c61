//! What holds of the machine whatever the program: laws that follow from
//! the model of the instructions, each proved here.

use vstd::prelude::*;
use crate::cpu::Outcome;
use crate::display::{
    blank, collides, drawn, key_of_scancode, paints, DisplayView, KeyAction, HEIGHT, OFF_PIXEL,
    ON_PIXEL, PIXELS, WIDTH,
};
use crate::error::Error;
use crate::mem::{
    font_addr, font_glyphs, initial_memory, program_fits, splice, FONT_HEIGHT, MEM_SIZE,
    PROGRAM_ADDRESS,
};
use crate::model::{
    greater_flag, no_release, release_choice, release_edge, snapshot, CpuView, MachineView, FLAG,
};
use crate::opcode::{op_family, op_nn, op_nnn, op_x, op_y, word_of};
use crate::timer::TimerView;

verus! {

/// After a program is loaded, every address inside the program holds the
/// program's byte and every other address holds what it held before.
pub proof fn lemma_read_after_load(mem: Seq<u8>, program: Seq<u8>, a: int)
    requires
        mem.len() == MEM_SIZE,
        program_fits(program.len()),
        0 <= a < MEM_SIZE,
    ensures
        splice(mem, PROGRAM_ADDRESS as int, program).len() == MEM_SIZE,
        PROGRAM_ADDRESS <= a < PROGRAM_ADDRESS + program.len() ==> splice(
            mem,
            PROGRAM_ADDRESS as int,
            program,
        )[a] == program[a - PROGRAM_ADDRESS],
        !(PROGRAM_ADDRESS <= a < PROGRAM_ADDRESS + program.len()) ==> splice(
            mem,
            PROGRAM_ADDRESS as int,
            program,
        )[a] == mem[a],
{
}

/// The glyph of each digit lies at its address, five rows one behind the
/// other, and stays there when a program is loaded: the font ends before
/// the program base.
pub proof fn lemma_font_survives_load(program: Seq<u8>, digit: u8, row: int)
    requires
        program_fits(program.len()),
        0 <= row < FONT_HEIGHT,
    ensures
        font_addr(digit) + FONT_HEIGHT <= PROGRAM_ADDRESS,
        initial_memory()[font_addr(digit) + row] == font_glyphs()[FONT_HEIGHT * (digit % 16) + row],
        splice(initial_memory(), PROGRAM_ADDRESS as int, program)[font_addr(digit) + row]
            == initial_memory()[font_addr(digit) + row],
{
}

/// A fetch fails exactly where the program counter is 4095 or more, and
/// then moves nothing. Two fetches in a row return the two instructions
/// that lie in memory one behind the other, each with its high byte first,
/// and each moves the program counter by 2.
pub proof fn lemma_consecutive_fetches(cpu: CpuView, mem: Seq<u8>)
    requires
        mem.len() == MEM_SIZE,
    ensures
        cpu.pc >= MEM_SIZE - 1 <==> cpu.fetch(mem).1 is Err,
        cpu.pc >= MEM_SIZE - 1 ==> cpu.fetch(mem) == (cpu, Err::<u16, Error>(Error::FetchOutOfBounds)),
        cpu.pc < MEM_SIZE - 1 ==> {
            &&& cpu.fetch(mem).1 == Ok::<u16, Error>(
                word_of(mem[cpu.pc as int], mem[cpu.pc + 1]) as u16,
            )
            &&& cpu.fetch(mem).0 == (CpuView { pc: (cpu.pc + 2) as u16, ..cpu })
        },
        cpu.pc + 2 < MEM_SIZE - 1 ==> {
            &&& cpu.fetch(mem).0.fetch(mem).1 == Ok::<u16, Error>(
                word_of(mem[cpu.pc + 2], mem[cpu.pc + 3]) as u16,
            )
            &&& cpu.fetch(mem).0.fetch(mem).0 == (CpuView { pc: (cpu.pc + 4) as u16, ..cpu })
        },
{
}

/// `7xnn` leaves in register `x` the sum modulo 256 and changes no other
/// register. The flag register keeps its value, unless it is register `x`
/// itself and `nn` is not zero: then, and only then, it changes.
pub proof fn lemma_add_wraps_without_flag(cpu: CpuView, instr: u16)
    requires
        cpu.wf(),
    ensures
        cpu.add_v(instr).v[op_x(instr)] == (cpu.v[op_x(instr)] + op_nn(instr)) % 256,
        forall|r: int| 0 <= r < 16 && r != op_x(instr) ==> cpu.add_v(instr).v[r] == cpu.v[r],
        op_x(instr) != FLAG || op_nn(instr) == 0 <==> cpu.add_v(instr).v[FLAG as int]
            == cpu.v[FLAG as int],
{
}

/// `8xy5` and `8xy7` leave in register `x` the difference of minuend and
/// subtrahend modulo 256. The flag register is 1 if and only if the minuend
/// is strictly greater than the subtrahend, unless register `x` is the
/// flag register itself, where the difference stays in it: then this holds
/// of a minuend that is at most one above the subtrahend, but for the
/// minuend 0 with the subtrahend 255, and of no other.
pub proof fn lemma_subtraction_borrow(cpu: CpuView, instr: u16)
    requires
        cpu.wf(),
    ensures
        ({
            let vx = cpu.v[op_x(instr)];
            let vy = cpu.v[op_y(instr)];
            let after = cpu.arith_vx_minus_vy(instr);
            &&& after.v[op_x(instr)] == (vx - vy) % 256
            &&& op_x(instr) != FLAG ==> after.v[FLAG as int] == greater_flag(vx, vy)
            &&& op_x(instr) != FLAG || (vx <= vy + 1 && !(vx == 0 && vy == 255)) <==> (
            after.v[FLAG as int] == 1 <==> vx > vy)
        }),
        ({
            let vx = cpu.v[op_x(instr)];
            let vy = cpu.v[op_y(instr)];
            let after = cpu.arith_vy_minus_vx(instr);
            &&& after.v[op_x(instr)] == (vy - vx) % 256
            &&& op_x(instr) != FLAG ==> after.v[FLAG as int] == greater_flag(vy, vx)
            &&& op_x(instr) != FLAG || (vy <= vx + 1 && !(vy == 0 && vx == 255)) <==> (
            after.v[FLAG as int] == 1 <==> vy > vx)
        }),
{
}

/// `8xy6` and `8xyE` leave in register `x` its former value shifted by one
/// bit within 8 bits. The flag register is the bit that was shifted out,
/// unless register `x` is the flag register itself and the shifted value
/// differs from that bit: then, and only then, it is not.
pub proof fn lemma_shift_carries_out(cpu: CpuView, instr: u16)
    requires
        cpu.wf(),
    ensures
        ({
            let vx = cpu.v[op_x(instr)];
            let after = cpu.right_shift(instr);
            &&& after.v[op_x(instr)] == vx / 2
            &&& op_x(instr) != FLAG || vx / 2 == vx % 2 <==> after.v[FLAG as int] == vx % 2
        }),
        ({
            let vx = cpu.v[op_x(instr)];
            let after = cpu.left_shift(instr);
            &&& after.v[op_x(instr)] == (vx * 2) % 256
            &&& op_x(instr) != FLAG || (vx * 2) % 256 == vx / 128 <==> after.v[FLAG as int] == vx
                / 128
        }),
{
}

/// The shifts of the model are the shifts of the machine: halving is
/// `>> 1`, doubling modulo 256 is `<< 1`, and the bits shifted out are the
/// lowest and the highest bit.
pub proof fn lemma_shift_bits(vx: u8)
    ensures
        vx / 2 == vx >> 1,
        (vx * 2) % 256 == vx << 1,
        vx % 2 == vx & 1,
        vx / 128 == (vx >> 7) & 1,
{
    assert(vx / 2 == vx >> 1 && (vx * 2) % 256 == vx << 1 && vx % 2 == vx & 1 && vx / 128 == (vx
        >> 7) & 1) by (bit_vector);
}

/// A call followed at once by a return leaves the interpreter as it was
/// before the call: the program counter is again at the instruction behind
/// the call, and the stack is as before.
pub proof fn lemma_call_then_return(cpu: CpuView, instr: u16)
    ensures
        cpu.subroutine(instr).pc == op_nnn(instr),
        cpu.subroutine(instr).return_routine() == cpu,
{
    assert(cpu.stack.push(cpu.pc).drop_last() == cpu.stack);
}

/// Where no key that was down in the stored snapshot is up now, the
/// key-wait instruction changes no register, stores the new snapshot and
/// steps back to itself.
pub proof fn lemma_key_wait_without_release(
    cpu: CpuView,
    now: Map<u8, bool>,
    instr: u16,
    choice: Option<u8>,
)
    requires
        no_release(cpu.pressed, now),
        release_choice(cpu.pressed, now, choice),
    ensures
        choice is None,
        cpu.check_key_state(now, instr, choice) == (CpuView {
            pc: (cpu.pc - 2) as u16,
            pressed: now,
            ..cpu
        }),
{
    if choice is Some {
        assert(release_edge(cpu.pressed, now, choice->0));
    }
}

/// Where a key that was down in the stored snapshot is up now, the
/// key-wait instruction writes to register `x` a key that was released,
/// changes nothing else of the registers and drops the stored snapshot.
/// The instruction that follows it sees no release, whatever the keys do:
/// a key is reported once.
pub proof fn lemma_key_wait_reports_once(
    cpu: CpuView,
    now: Map<u8, bool>,
    instr: u16,
    choice: Option<u8>,
    later: Map<u8, bool>,
)
    requires
        cpu.wf(),
        release_choice(cpu.pressed, now, choice),
        !no_release(cpu.pressed, now),
    ensures
        choice is Some,
        release_edge(cpu.pressed, now, choice->0),
        cpu.check_key_state(now, instr, choice) == (CpuView {
            v: cpu.v.update(op_x(instr), choice->0),
            pressed: Map::empty(),
            ..cpu
        }),
        no_release(cpu.check_key_state(now, instr, choice).pressed, later),
{
}

/// After `n` ticks each counter is lower by `n`, or zero where it held less
/// than `n`: a counter never passes below zero.
pub proof fn lemma_ticks_saturate(t: TimerView, n: nat)
    ensures
        t.ticks(n).delay == if t.delay >= n { t.delay - n } else { 0 },
        t.ticks(n).sound == if t.sound >= n { t.sound - n } else { 0 },
    decreases n,
{
    if n > 0 {
        lemma_ticks_saturate(t.tick(), (n - 1) as nat);
    }
}

/// Drawing changes no pixel outside the rectangle of the sprite: none to
/// the left of its origin or above it, none from the eighth column or
/// from the row behind its last on. The frame buffer keeps its size, so a
/// sprite that reaches an edge is cut off: nothing comes round to the
/// other side.
pub proof fn lemma_draw_clips(buf: Seq<u8>, x: int, y: int, sprite: Seq<u8>, col: int, row: int)
    requires
        buf.len() == PIXELS,
        0 <= col < WIDTH,
        0 <= row < HEIGHT,
    ensures
        drawn(buf, x, y, sprite).len() == PIXELS,
        col < x || col >= x + 8 || row < y || row >= y + sprite.len() ==> drawn(buf, x, y, sprite)[row
            * WIDTH + col] == buf[row * WIDTH + col],
{
    let p = row * WIDTH + col;
    assert(p % (WIDTH as int) == col && p / (WIDTH as int) == row);
}

/// On a dark frame buffer, drawing lights exactly the pixels that the
/// sprite paints and reports no collision.
pub proof fn lemma_draw_on_blank(x: int, y: int, sprite: Seq<u8>, col: int, row: int)
    requires
        0 <= col < WIDTH,
        0 <= row < HEIGHT,
    ensures
        !collides(blank(), x, y, sprite),
        drawn(blank(), x, y, sprite)[row * WIDTH + col] == if paints(x, y, sprite, col, row) {
            ON_PIXEL
        } else {
            OFF_PIXEL
        },
{
    let p = row * WIDTH + col;
    assert(p % (WIDTH as int) == col && p / (WIDTH as int) == row);
}

/// Drawing the same sprite twice at the same place gives back the frame
/// buffer, where each pixel of it was lit or dark. The second drawing
/// reports a collision if and only if the sprite paints a pixel that the
/// first drawing left lit.
pub proof fn lemma_draw_twice(buf: Seq<u8>, x: int, y: int, sprite: Seq<u8>)
    requires
        buf.len() == PIXELS,
        forall|p: int| 0 <= p < PIXELS ==> buf[p] == ON_PIXEL || buf[p] == OFF_PIXEL,
    ensures
        drawn(drawn(buf, x, y, sprite), x, y, sprite) == buf,
        collides(drawn(buf, x, y, sprite), x, y, sprite) <==> exists|p: int|
            0 <= p < PIXELS && paints(x, y, sprite, p % (WIDTH as int), p / (WIDTH as int))
                && #[trigger] buf[p] == OFF_PIXEL,
{
    let once = drawn(buf, x, y, sprite);
    assert(drawn(once, x, y, sprite) =~= buf);
    if collides(once, x, y, sprite) {
        let p = choose|p: int|
            0 <= p < once.len() && paints(x, y, sprite, p % (WIDTH as int), p / (WIDTH as int))
                && #[trigger] once[p] == ON_PIXEL;
        assert(buf[p] == OFF_PIXEL);
    }
    if exists|p: int|
        0 <= p < PIXELS && paints(x, y, sprite, p % (WIDTH as int), p / (WIDTH as int))
            && #[trigger] buf[p] == OFF_PIXEL {
        let p = choose|p: int|
            0 <= p < PIXELS && paints(x, y, sprite, p % (WIDTH as int), p / (WIDTH as int))
                && #[trigger] buf[p] == OFF_PIXEL;
        assert(once[p] == ON_PIXEL);
    }
}

/// Drawing a sprite on a dark frame buffer and then once more at the same
/// place leaves the frame buffer dark. The second drawing reports a
/// collision if and only if the sprite paints a pixel at all.
pub proof fn lemma_draw_then_erase(x: int, y: int, sprite: Seq<u8>)
    ensures
        drawn(drawn(blank(), x, y, sprite), x, y, sprite) == blank(),
        collides(drawn(blank(), x, y, sprite), x, y, sprite) <==> exists|p: int|
            0 <= p < PIXELS && #[trigger] paints(
                x,
                y,
                sprite,
                p % (WIDTH as int),
                p / (WIDTH as int),
            ),
{
    lemma_draw_twice(blank(), x, y, sprite);
    if exists|p: int|
        0 <= p < PIXELS && #[trigger] paints(x, y, sprite, p % (WIDTH as int), p / (WIDTH as int)) {
        let p = choose|p: int|
            0 <= p < PIXELS && #[trigger] paints(
                x,
                y,
                sprite,
                p % (WIDTH as int),
                p / (WIDTH as int),
            );
        assert(blank()[p] == OFF_PIXEL);
    }
}

/// Each of the sixteen keys has a scan code of the host keyboard.
pub proof fn lemma_every_key_has_a_scancode(key: u8)
    requires
        key <= 0xF,
    ensures
        exists|scancode: u32| key_of_scancode(scancode) == Some(key),
{
    let scancodes: Seq<u32> = seq![45, 2, 3, 4, 16, 17, 18, 30, 31, 32, 44, 46, 5, 19, 33, 47];
    assert(key_of_scancode(scancodes[key as int]) == Some(key));
}

/// A key event changes the state of one key at most, and of no pixel; a
/// well-formed display stays well-formed. A scan code that stands for no
/// key changes nothing.
pub proof fn lemma_key_event_keeps_display(disp: DisplayView, scancode: u32, action: KeyAction)
    requires
        disp.wf(),
    ensures
        disp.with_scancode(scancode, action).wf(),
        disp.with_scancode(scancode, action).pixels == disp.pixels,
        key_of_scancode(scancode) is None ==> disp.with_scancode(scancode, action) == disp,
        forall|key: u8|
            key_of_scancode(scancode) != Some(key) ==> disp.with_scancode(scancode, action).key_down(
                key,
            ) == disp.key_down(key),
        forall|key: u8|
            key_of_scancode(scancode) == Some(key) ==> disp.with_scancode(scancode, action).key_down(
                key,
            ) == (action == KeyAction::Pressed),
{
}

/// Whatever instruction is executed, a well-formed display stays
/// well-formed: every pixel is lit or dark afterwards, and no key is
/// recorded that is none of the sixteen.
pub proof fn lemma_decode_keeps_display(
    pre: MachineView,
    instr: u16,
    byte: u8,
    choice: Option<u8>,
)
    requires
        pre.accepts(instr),
        pre.disp is Some,
        pre.disp->0.wf(),
    ensures
        pre.decode(instr, byte, choice).0.disp is Some,
        pre.decode(instr, byte, choice).0.disp->0.wf(),
        pre.decode(instr, byte, choice).0.disp->0.keys == pre.disp->0.keys,
{
}

/// An instruction that fails changes nothing: not the interpreter, not the
/// display, not memory, not the timers.
pub proof fn lemma_failure_changes_nothing(
    pre: MachineView,
    instr: u16,
    byte: u8,
    choice: Option<u8>,
)
    requires
        pre.accepts(instr),
    ensures
        pre.decode(instr, byte, choice).1 is Err ==> pre.decode(instr, byte, choice).0 == pre,
{
}

/// Where an instruction sends the program counter. A jump and a call send
/// it to their address and a return to the address pushed last. The
/// key-wait instruction sends it back by one instruction while no key is
/// released. Every other instruction leaves it where it is or, where it
/// skips, moves it forward by one instruction: nothing else moves it back.
pub proof fn lemma_program_counter_moves(
    pre: MachineView,
    instr: u16,
    byte: u8,
    choice: Option<u8>,
)
    requires
        pre.accepts(instr),
        pre.waits_for_key(instr) ==> release_choice(
            pre.cpu.pressed,
            snapshot(pre.disp->0),
            choice,
        ),
    ensures
        ({
            let post = pre.decode(instr, byte, choice).0;
            if instr == 0x00E0 {
                post.cpu.pc == pre.cpu.pc
            } else if instr == 0x00EE {
                post.cpu.pc == pre.cpu.stack.last()
            } else if op_family(instr) == 0x1 || op_family(instr) == 0x2 {
                post.cpu.pc == op_nnn(instr)
            } else if pre.waits_for_key(instr) && choice is None {
                post.cpu.pc == pre.cpu.pc - 2
            } else {
                post.cpu.pc == pre.cpu.pc || post.cpu.pc == pre.cpu.pc + 2
            }
        }),
{
}

/// The faults of a machine with all its parts. An instruction that was
/// fetched can be executed unless it is a return with no call pending, or
/// the key-wait instruction while the stored snapshot holds as down a key
/// that is none of the sixteen. The program counter never stands in the
/// way: behind a fetch it is at least 2 and at most 4096.
pub proof fn lemma_faults_of_a_cycle(pre: MachineView, instr: u16)
    requires
        pre.disp is Some,
        pre.mem is Some,
        pre.timer is Some,
        pre.cpu.fetch(pre.mem->0).1 == Ok::<u16, Error>(instr),
    ensures
        2 <= pre.cpu.fetch(pre.mem->0).0.pc <= MEM_SIZE,
        pre.with_cpu(pre.cpu.fetch(pre.mem->0).0).accepts(instr) <==> !(instr == 0x00EE
            && pre.cpu.stack.len() == 0) && !(pre.waits_for_key(instr) && exists|key: u8|
            pre.cpu.pressed.contains_key(key) && pre.cpu.pressed[key] && key > 0xF),
{
    let fetched = pre.with_cpu(pre.cpu.fetch(pre.mem->0).0);
    let now = snapshot(pre.disp->0);
    if pre.waits_for_key(instr) {
        assert(instr != 0x00EE && instr != 0x00E0);
        if exists|key: u8| pre.cpu.pressed.contains_key(key) && pre.cpu.pressed[key] && key > 0xF {
            let key = choose|key: u8|
                pre.cpu.pressed.contains_key(key) && pre.cpu.pressed[key] && key > 0xF;
            assert(!now.contains_key(key));
        } else {
            assert forall|key: u8|
                pre.cpu.pressed.contains_key(key) && pre.cpu.pressed[key] implies now.contains_key(
                key,
            ) by {
                assert(key <= 0xF);
            }
        }
    }
}

/// A cycle whose fetch fails halts with that failure and changes nothing.
/// A cycle that does not fault ends as decoding the fetched instruction
/// ends.
pub proof fn lemma_cycle_is_fetch_then_decode(pre: MachineView, byte: u8, choice: Option<u8>)
    requires
        pre.mem is Some,
    ensures
        pre.cpu.fetch(pre.mem->0).1 is Err ==> pre.cycle(byte, choice) == (
            pre,
            Outcome::Halt(Error::FetchOutOfBounds),
        ),
        pre.cpu.fetch(pre.mem->0).1 matches Ok(instr) ==> {
            let fetched = pre.with_cpu(pre.cpu.fetch(pre.mem->0).0);
            &&& pre.cycle(byte, choice).1 == Outcome::Fault <==> !fetched.accepts(instr)
            &&& fetched.accepts(instr) ==> pre.cycle(byte, choice).0 == fetched.decode(
                instr,
                byte,
                choice,
            ).0
            &&& fetched.accepts(instr) ==> (pre.cycle(byte, choice).1 == Outcome::Continue
                <==> fetched.decode(instr, byte, choice).1 is Ok)
        },
{
}

} // verus!
