use chip8::cpu::{Cpu, Outcome};
use chip8::display::{Display, KeyAction, Reaction, WindowEvent, ON_PIXEL, WIDTH};
use chip8::error::Error;
use chip8::mem::{Memory, FONT_ADDRESS, FONT_HEIGHT, MEM_SIZE};
use chip8::opcode::{address, family, join_bytes, low_byte, nibble, reg_x, reg_y};
use chip8::timer::Timer;

#[test]
fn instruction_fields() {
    assert_eq!(family(0xD123), 0xD);
    assert_eq!(reg_x(0xD123), 1);
    assert_eq!(reg_y(0xD123), 2);
    assert_eq!(nibble(0xD123), 3);
    assert_eq!(low_byte(0xD123), 0x23);
    assert_eq!(address(0xD123), 0x123);
    assert_eq!(join_bytes(0xD1, 0x23), 0xD123);
    assert_eq!(join_bytes(0x00, 0xFF), 0x00FF);
    assert_eq!(join_bytes(0xFF, 0x00), 0xFF00);
}

#[test]
fn power_on_state() {
    let cpu = Cpu::new();
    assert_eq!(cpu.pc, 0x200);
    assert_eq!(cpu.i, 0);
    assert_eq!(cpu.v, [0u8; 16]);
    assert!(cpu.stack.is_empty());
    assert!(cpu.pressed.is_empty());
}

#[test]
fn font_is_loaded_at_its_place() {
    let mem = Memory::new();
    let zero: [u8; 5] = [0xF0, 0x90, 0x90, 0x90, 0xF0];
    let last: [u8; 5] = [0xF0, 0x80, 0xF0, 0x80, 0x80];
    for r in 0..5 {
        assert_eq!(mem.read(FONT_ADDRESS + r).unwrap(), zero[r]);
        assert_eq!(mem.read(FONT_ADDRESS + 15 * FONT_HEIGHT + r).unwrap(), last[r]);
    }
    assert_eq!(mem.read(FONT_ADDRESS - 1).unwrap(), 0);
    assert_eq!(mem.read(FONT_ADDRESS + 80).unwrap(), 0);
    assert_eq!(mem.get_font_addr(0x0), 0x50);
    assert_eq!(mem.get_font_addr(0xF), 0x50 + 75);
    // Only the low nibble counts.
    assert_eq!(mem.get_font_addr(0x1A), 0x50 + 50);
}

#[test]
fn read_past_the_end_is_out_of_bounds() {
    let mem = Memory::new();
    assert!(mem.read(4095).is_ok());
    assert_eq!(mem.read(4096), Err(Error::OutOfBounds));
    assert_eq!(mem.read(usize::MAX), Err(Error::OutOfBounds));
}

#[test]
fn too_large_a_program_is_named() {
    let mut mem = Memory::new();
    let prog: Vec<u8> = vec![0; 3585];
    assert_eq!(mem.load_program(&prog), Err(Error::ProgramTooLarge));
}

#[test]
fn fetch_past_the_end_is_named() {
    let mem = Memory::new();
    let mut cpu = Cpu::new();
    cpu.pc = 0xFFFF;
    assert_eq!(cpu.fetch(&mem), Err(Error::FetchOutOfBounds));
    assert_eq!(cpu.pc, 0xFFFF);
}

#[test]
fn unknown_instructions_carry_their_word() {
    let mut cpu = Cpu::new();
    assert_eq!(cpu.decode(0xB123, None, None, None), Err(Error::UnknownOpcode(0xB123)));
    assert_eq!(cpu.decode(0x0123, None, None, None), Err(Error::UnknownOpcode(0x0123)));
    assert_eq!(cpu.decode(0x8008, None, None, None), Err(Error::UnhandledSubOpcode(0x8008)));
    assert_eq!(cpu.decode(0x812F, None, None, None), Err(Error::UnhandledSubOpcode(0x812F)));
    assert_eq!(cpu.decode(0xF1FF, None, None, None), Err(Error::UnhandledSubOpcode(0xF1FF)));
    let mut disp = Display::new();
    assert_eq!(
        cpu.decode(0xE100, Some(&mut disp), None, None),
        Err(Error::UnhandledSubOpcode(0xE100))
    );
    // Without a display the key instructions do nothing.
    assert_eq!(cpu.decode(0xE100, None, None, None), Ok(0));
    assert_eq!(cpu.pc, 0x200);
}

#[test]
fn key_skips_follow_the_keys() {
    let mut cpu = Cpu::new();
    let mut disp = Display::new();
    assert!(disp.set_key_state(44, KeyAction::Pressed).is_ok());
    cpu.v[2] = 0xA;
    assert_eq!(cpu.decode(0xE29E, Some(&mut disp), None, None), Ok(0));
    assert_eq!(cpu.pc, 0x202);
    assert_eq!(cpu.decode(0xE2A1, Some(&mut disp), None, None), Ok(0));
    assert_eq!(cpu.pc, 0x202);
    cpu.v[2] = 0xB;
    assert_eq!(cpu.decode(0xE29E, Some(&mut disp), None, None), Ok(0));
    assert_eq!(cpu.pc, 0x202);
    assert_eq!(cpu.decode(0xE2A1, Some(&mut disp), None, None), Ok(0));
    assert_eq!(cpu.pc, 0x204);
    // A register that names no key.
    cpu.v[2] = 0x10;
    assert_eq!(cpu.decode(0xE29E, Some(&mut disp), None, None), Err(Error::InvalidKeyCode(0x10)));
    assert_eq!(cpu.decode(0xE2A1, Some(&mut disp), None, None), Err(Error::InvalidKeyCode(0x10)));
    assert_eq!(cpu.pc, 0x204);
}

#[test]
fn key_codes_above_fifteen_are_refused() {
    let mut disp = Display::new();
    assert_eq!(disp.get_key_state(0xF), Ok(false));
    assert_eq!(disp.get_key_state(0x10), Err(Error::InvalidKeyCode(0x10)));
    assert_eq!(disp.set_key_state(1, KeyAction::Pressed), Err(Error::InvalidKeyCode(1)));
    assert_eq!(Display::scancode_to_key(48), Err(Error::InvalidKeyCode(48)));
}

#[test]
fn scancodes_lie_as_on_the_keypad() {
    let table: [(u32, u8); 16] = [
        (2, 0x1), (3, 0x2), (4, 0x3), (5, 0xC),
        (16, 0x4), (17, 0x5), (18, 0x6), (19, 0xD),
        (30, 0x7), (31, 0x8), (32, 0x9), (33, 0xE),
        (44, 0xA), (45, 0x0), (46, 0xB), (47, 0xF),
    ];
    let mut seen: [bool; 16] = [false; 16];
    for (scancode, key) in table {
        assert_eq!(Display::scancode_to_key(scancode), Ok(key));
        seen[key as usize] = true;
    }
    assert!(seen.iter().all(|s| *s));
    for scancode in [0u32, 1, 6, 15, 20, 29, 34, 43, 48, 93, u32::MAX] {
        assert!(Display::scancode_to_key(scancode).is_err());
    }
}

#[test]
fn window_events() {
    let mut disp = Display::new();
    assert_eq!(
        disp.handle_window_event(WindowEvent::KeyboardInput(45, KeyAction::Pressed)),
        Reaction::Continue
    );
    assert_eq!(disp.get_key_state(0), Ok(true));
    assert_eq!(
        disp.handle_window_event(WindowEvent::KeyboardInput(45, KeyAction::Released)),
        Reaction::Continue
    );
    assert_eq!(disp.get_key_state(0), Ok(false));
    assert_eq!(
        disp.handle_window_event(WindowEvent::KeyboardInput(93, KeyAction::Pressed)),
        Reaction::Rejected(Error::InvalidKeyCode(93))
    );
    assert_eq!(disp.handle_window_event(WindowEvent::Other), Reaction::Continue);
    assert_eq!(disp.handle_window_event(WindowEvent::CloseRequested), Reaction::Exit);
}

#[test]
fn clear_darkens_what_was_drawn() {
    let mut cpu = Cpu::new();
    let mut disp = Display::new();
    let sprite: Vec<u8> = vec![0xFF];
    disp.draw(0, 0, &sprite);
    assert_eq!(disp.buffer()[0], ON_PIXEL);
    assert_eq!(cpu.decode(0x00E0, Some(&mut disp), None, None), Ok(0));
    assert!(disp.buffer().iter().all(|p| *p == 0));
    let mut buf: [u8; 2048] = [0xFF; 2048];
    Display::clear_buf(&mut buf);
    assert!(buf.iter().all(|p| *p == 0));
}

#[test]
fn draw_instruction_wraps_the_origin_and_sets_the_flag() {
    let mut cpu = Cpu::new();
    let mut disp = Display::new();
    let mut mem = Memory::new();
    // The glyph of 0 at 64 + 3 and 32 + 2: drawn at (3, 2).
    cpu.v[0] = 67;
    cpu.v[1] = 34;
    cpu.i = FONT_ADDRESS as u16;
    assert_eq!(cpu.decode(0xD015, Some(&mut disp), Some(&mut mem), None), Ok(0));
    assert_eq!(cpu.v[0xF], 0);
    assert_eq!(disp.buffer()[WIDTH * 2 + 3], ON_PIXEL);
    assert_eq!(disp.buffer()[WIDTH * 3 + 3], ON_PIXEL);
    assert_eq!(disp.buffer()[WIDTH * 3 + 4], 0);
    assert_eq!(disp.buffer()[WIDTH * 3 + 6], ON_PIXEL);
    assert_eq!(cpu.decode(0xD015, Some(&mut disp), Some(&mut mem), None), Ok(0));
    assert_eq!(cpu.v[0xF], 1);
    assert!(disp.buffer().iter().all(|p| *p == 0));
}

#[test]
fn memory_instructions_past_the_end_are_refused() {
    let mut cpu = Cpu::new();
    let mut disp = Display::new();
    let mut mem = Memory::new();
    cpu.i = 4094;
    cpu.v[0] = 7;
    cpu.v[1] = 8;
    cpu.v[2] = 9;
    assert_eq!(cpu.decode(0xF255, None, Some(&mut mem), None), Err(Error::OutOfBounds));
    assert_eq!(mem.read(4094), Ok(0));
    assert_eq!(cpu.decode(0xF265, None, Some(&mut mem), None), Err(Error::OutOfBounds));
    assert_eq!(cpu.v[0], 7);
    assert_eq!(cpu.decode(0xF033, None, Some(&mut mem), None), Err(Error::OutOfBounds));
    assert_eq!(mem.read(4095), Ok(0));
    assert_eq!(
        cpu.decode(0xD003, Some(&mut disp), Some(&mut mem), None),
        Err(Error::OutOfBounds)
    );
    assert!(disp.buffer().iter().all(|p| *p == 0));
    // Up to the last byte they work.
    assert_eq!(cpu.decode(0xF155, None, Some(&mut mem), None), Ok(0));
    assert_eq!(mem.read(4094), Ok(7));
    assert_eq!(mem.read(4095), Ok(8));
    assert_eq!(cpu.decode(0xD002, Some(&mut disp), Some(&mut mem), None), Ok(0));
    cpu.i = 4093;
    assert_eq!(cpu.decode(0xF033, None, Some(&mut mem), None), Ok(0));
    assert_eq!(mem.read(4093), Ok(0));
    assert_eq!(mem.read(4094), Ok(0));
    assert_eq!(mem.read(4095), Ok(7));
    cpu.i = MEM_SIZE as u16;
    assert_eq!(cpu.decode(0xF055, None, Some(&mut mem), None), Err(Error::OutOfBounds));
}

#[test]
fn decimal_digits_of_edge_values() {
    let mut cpu = Cpu::new();
    let mut mem = Memory::new();
    cpu.i = 0x300;
    for (val, digits) in [(0u8, [0u8, 0, 0]), (7, [0, 0, 7]), (100, [1, 0, 0]), (255, [2, 5, 5])] {
        cpu.v[3] = val;
        cpu.bcd(0xF333, &mut mem);
        assert_eq!(&mem.mem[0x300..0x303], &digits[..]);
    }
}

#[test]
fn index_register_addition_flags_the_end_of_the_address_space() {
    let mut cpu = Cpu::new();
    cpu.i = 0xFFE;
    cpu.v[1] = 1;
    cpu.increment_i(0xF11E);
    assert_eq!(cpu.i, 0xFFF);
    assert_eq!(cpu.v[0xF], 0);
    cpu.increment_i(0xF11E);
    assert_eq!(cpu.i, 0x1000);
    assert_eq!(cpu.v[0xF], 1);
    // A sum inside the address space leaves the flag as it is.
    cpu.i = 0x10;
    cpu.increment_i(0xF11E);
    assert_eq!(cpu.i, 0x11);
    assert_eq!(cpu.v[0xF], 1);
    // The sum is kept in 16 bits.
    cpu.i = 0xFFFF;
    cpu.v[1] = 2;
    cpu.increment_i(0xF11E);
    assert_eq!(cpu.i, 1);
}

#[test]
fn font_instruction_points_at_the_glyph() {
    let mut cpu = Cpu::new();
    let mut mem = Memory::new();
    cpu.v[5] = 0x3C;
    assert_eq!(cpu.get_font_char(0xF529), 0xC);
    assert_eq!(cpu.decode(0xF529, None, Some(&mut mem), None), Ok(0));
    assert_eq!(cpu.i as usize, FONT_ADDRESS + 0xC * FONT_HEIGHT);
}

#[test]
fn timer_instructions() {
    let mut cpu = Cpu::new();
    let mut timer = Timer::new();
    cpu.v[4] = 0x2A;
    assert_eq!(cpu.decode(0xF415, None, None, Some(&mut timer)), Ok(0));
    assert_eq!(timer.get_delay(), 0x2A);
    assert_eq!(timer.get_sound(), 0);
    cpu.v[4] = 0x11;
    assert_eq!(cpu.decode(0xF418, None, None, Some(&mut timer)), Ok(0));
    assert_eq!(timer.get_sound(), 0x11);
    assert_eq!(timer.get_delay(), 0x2A);
    timer.one_iteration();
    assert_eq!(cpu.decode(0xF907, None, None, Some(&mut timer)), Ok(0));
    assert_eq!(cpu.v[9], 0x29);
}

#[test]
fn store_and_load_leave_the_index_register() {
    let mut cpu = Cpu::new();
    let mut mem = Memory::new();
    cpu.i = 0x700;
    for r in 0..16 {
        cpu.v[r] = 0x10 + r as u8;
    }
    cpu.store(0xFF55, &mut mem);
    assert_eq!(cpu.i, 0x700);
    for r in 0..16 {
        assert_eq!(mem.mem[0x700 + r], 0x10 + r as u8);
    }
    assert_eq!(mem.mem[0x710], 0);
    let mut other = Cpu::new();
    other.i = 0x700;
    other.load(0xF265, &mem);
    assert_eq!(&other.v[..4], &[0x10, 0x11, 0x12, 0][..]);
    assert_eq!(other.i, 0x700);
}

#[test]
fn random_byte_is_masked() {
    let mut cpu = Cpu::new();
    let mut seen: [bool; 256] = [false; 256];
    for _ in 0..512 {
        cpu.v[3] = 0xFF;
        assert_eq!(cpu.decode(0xC30F, None, None, None), Ok(0));
        assert!(cpu.v[3] <= 0x0F);
        cpu.random(0xC4FF);
        seen[cpu.v[4] as usize] = true;
    }
    // More than one value comes out of 512 draws.
    assert!(seen.iter().filter(|s| **s).count() > 1);
    cpu.v[5] = 0xFF;
    cpu.random(0xC500);
    assert_eq!(cpu.v[5], 0);
    cpu.random_with(0xC5F0, 0xAB);
    assert_eq!(cpu.v[5], 0xA0);
}

#[test]
fn key_wait_through_the_display() {
    let mut cpu = Cpu::new();
    let mut disp = Display::new();
    cpu.pc = 0x202;
    assert_eq!(cpu.decode(0xF70A, Some(&mut disp), None, None), Ok(0));
    assert_eq!(cpu.pc, 0x200);
    assert_eq!(cpu.pressed.len(), 16);
    assert!(disp.set_key_state(17, KeyAction::Pressed).is_ok());
    cpu.pc = 0x202;
    assert_eq!(cpu.decode(0xF70A, Some(&mut disp), None, None), Ok(0));
    assert_eq!(cpu.pc, 0x200);
    assert_eq!(cpu.v[7], 0);
    assert!(disp.set_key_state(17, KeyAction::Released).is_ok());
    cpu.pc = 0x202;
    assert_eq!(cpu.decode(0xF70A, Some(&mut disp), None, None), Ok(0));
    assert_eq!(cpu.pc, 0x202);
    assert_eq!(cpu.v[7], 0x5);
    assert!(cpu.pressed.is_empty());
}

#[test]
fn snapshot_holds_all_sixteen_keys() {
    let mut disp = Display::new();
    assert!(disp.set_key_state(47, KeyAction::Pressed).is_ok());
    assert!(disp.set_key_state(2, KeyAction::Pressed).is_ok());
    assert!(disp.set_key_state(2, KeyAction::Released).is_ok());
    let keys = Cpu::get_new_key_pressed_state(&disp);
    assert_eq!(keys.len(), 16);
    for k in 0..16u8 {
        assert_eq!(keys[&k], k == 0xF);
    }
    let mut cpu = Cpu::new();
    assert_eq!(cpu.released_key(&keys), None);
    cpu.pressed.insert(0x1, true);
    cpu.pressed.insert(0xF, true);
    assert_eq!(cpu.released_key(&keys), Some(0x1));
}

#[test]
fn what_decode_asks_for_can_be_tested() {
    let mut cpu = Cpu::new();
    let disp = Display::new();
    let mem = Memory::new();
    let timer = Timer::new();
    // A return with no call pending.
    assert!(!cpu.can_decode(0x00EE, None, None, None));
    cpu.stack.push(0x300);
    assert!(cpu.can_decode(0x00EE, None, None, None));
    // Instructions on a part that is not there.
    assert!(!cpu.can_decode(0xD123, Some(&disp), None, None));
    assert!(!cpu.can_decode(0xD123, None, Some(&mem), None));
    assert!(cpu.can_decode(0xD123, Some(&disp), Some(&mem), None));
    assert!(!cpu.can_decode(0xF107, None, None, None));
    assert!(cpu.can_decode(0xF107, None, None, Some(&timer)));
    assert!(!cpu.can_decode(0xF118, None, None, None));
    assert!(!cpu.can_decode(0xF155, None, None, None));
    assert!(cpu.can_decode(0xF155, None, Some(&mem), None));
    assert!(!cpu.can_decode(0xF10A, None, None, None));
    assert!(cpu.can_decode(0xF10A, Some(&disp), None, None));
    assert!(cpu.can_decode(0xF11E, None, None, None));
    assert!(cpu.can_decode(0xF1FF, None, None, None));
    assert!(cpu.can_decode(0xE19E, None, None, None));
    // A skip at the end of the 16 bits.
    cpu.pc = 0xFFFE;
    assert!(!cpu.can_decode(0x3000, None, None, None));
    assert!(cpu.can_decode(0x3001, None, None, None));
    assert!(cpu.can_decode(0x4000, None, None, None));
    assert!(!cpu.can_decode(0x5120, None, None, None));
    assert!(cpu.can_decode(0x9120, None, None, None));
    assert!(!cpu.can_decode(0xE1A1, Some(&disp), None, None));
    assert!(cpu.can_decode(0xE19E, Some(&disp), None, None));
    // A key wait that cannot step back.
    cpu.pc = 1;
    assert!(!cpu.can_decode(0xF10A, Some(&disp), None, None));
    // A stored snapshot with a key that is none of the sixteen.
    cpu.pc = 0x200;
    cpu.pressed.insert(0x20, true);
    assert!(!cpu.can_decode(0xF10A, Some(&disp), None, None));
    assert!(!cpu.pressed_on_keypad());
    cpu.pressed.insert(0x20, false);
    assert!(cpu.can_decode(0xF10A, Some(&disp), None, None));
    assert!(cpu.pressed_on_keypad());
}

#[test]
fn cycles_run_a_program_until_it_fails() {
    // V0 = 5; V0 += 0xFE; call 0x208; unknown; (0x208:) I = 0x300; return
    let prog: Vec<u8> = vec![
        0x60, 0x05, 0x70, 0xFE, 0x22, 0x08, 0xB0, 0x00, 0xA3, 0x00, 0x00, 0xEE,
    ];
    let mut mem = Memory::new();
    assert!(mem.load_program(&prog).is_ok());
    let mut cpu = Cpu::new();
    let mut disp = Display::new();
    let mut timer = Timer::new();

    assert_eq!(cpu.cycle(&mut mem, &mut disp, &mut timer), Outcome::Continue);
    assert_eq!(cpu.v[0], 5);
    assert_eq!(cpu.cycle(&mut mem, &mut disp, &mut timer), Outcome::Continue);
    assert_eq!(cpu.v[0], 3);
    assert_eq!(cpu.cycle(&mut mem, &mut disp, &mut timer), Outcome::Continue);
    assert_eq!(cpu.pc, 0x208);
    assert_eq!(cpu.cycle(&mut mem, &mut disp, &mut timer), Outcome::Continue);
    assert_eq!(cpu.i, 0x300);
    assert_eq!(cpu.cycle(&mut mem, &mut disp, &mut timer), Outcome::Continue);
    assert_eq!(cpu.pc, 0x206);
    assert_eq!(
        cpu.cycle(&mut mem, &mut disp, &mut timer),
        Outcome::Halt(Error::UnknownOpcode(0xB000))
    );
    assert_eq!(cpu.pc, 0x208);
}

#[test]
fn cycle_halts_at_the_end_of_memory_and_faults_on_a_stray_return() {
    let mut mem = Memory::new();
    let mut cpu = Cpu::new();
    let mut disp = Display::new();
    let mut timer = Timer::new();
    cpu.pc = 4095;
    assert_eq!(
        cpu.cycle(&mut mem, &mut disp, &mut timer),
        Outcome::Halt(Error::FetchOutOfBounds)
    );
    assert_eq!(cpu.pc, 4095);

    let prog: Vec<u8> = vec![0x00, 0xEE];
    assert!(mem.load_program(&prog).is_ok());
    cpu.pc = 0x200;
    assert_eq!(cpu.cycle(&mut mem, &mut disp, &mut timer), Outcome::Fault);
    assert_eq!(cpu.pc, 0x202);
    assert!(cpu.stack.is_empty());
}

#[test]
fn cycle_waits_for_a_key() {
    let prog: Vec<u8> = vec![0xF3, 0x0A, 0x63, 0x77];
    let mut mem = Memory::new();
    assert!(mem.load_program(&prog).is_ok());
    let mut cpu = Cpu::new();
    let mut disp = Display::new();
    let mut timer = Timer::new();
    for _ in 0..3 {
        assert_eq!(cpu.cycle(&mut mem, &mut disp, &mut timer), Outcome::Continue);
        assert_eq!(cpu.pc, 0x200);
    }
    assert!(disp.set_key_state(33, KeyAction::Pressed).is_ok());
    assert_eq!(cpu.cycle(&mut mem, &mut disp, &mut timer), Outcome::Continue);
    assert_eq!(cpu.pc, 0x200);
    assert!(disp.set_key_state(33, KeyAction::Released).is_ok());
    assert_eq!(cpu.cycle(&mut mem, &mut disp, &mut timer), Outcome::Continue);
    assert_eq!(cpu.pc, 0x202);
    assert_eq!(cpu.v[3], 0xE);
    assert_eq!(cpu.cycle(&mut mem, &mut disp, &mut timer), Outcome::Continue);
    assert_eq!(cpu.v[3], 0x77);
}
