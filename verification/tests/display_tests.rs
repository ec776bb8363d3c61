use chip8::display::{Display, KeyAction, HEIGHT, OFF_PIXEL, ON_PIXEL, WIDTH};

#[test]
fn check_clear_buf() {
    let mut buf: [u8; 2048] = [OFF_PIXEL; 2048];
    Display::clear_buf(&mut buf);
    for pxl in buf.iter() {
        assert_eq!(*pxl, 0);
    }
}

#[test]
fn update_buf_sprite_normal() {
    let mut buf: [u8; 2048] = [OFF_PIXEL; 2048];
    // The glyph of the letter F.
    let sprite: Vec<u8> = vec![0xF0, 0x80, 0xF0, 0x80, 0x80];

    let x: u8 = 32;
    let y: u8 = 16;
    let vf = Display::update_buf_sprite(&mut buf, x, y, &sprite);
    assert_eq!(vf, 0);

    // The pixels of the buffer are the bits of the sprite.
    for (j, byte) in sprite.iter().enumerate() {
        let cur_y = y as usize + j;
        for i in 0..8 {
            let bit = (byte >> (7 - i)) & 1;
            let buf_ind: usize = (WIDTH * cur_y) + (x + i) as usize;
            if bit == 1 {
                assert_eq!(buf[buf_ind], ON_PIXEL);
            } else {
                assert_eq!(buf[buf_ind], OFF_PIXEL);
            }
        }
    }
}

// A sprite at the edge is cut off and does not come round.
#[test]
fn update_buf_edge() {
    let mut buf: [u8; 2048] = [OFF_PIXEL; 2048];
    let sprite: Vec<u8> = vec![0xF0, 0x80, 0xF0, 0x80, 0x80];

    let x: u8 = 60;
    let y: u8 = 29;
    let vf = Display::update_buf_sprite(&mut buf, x, y, &sprite);
    assert_eq!(vf, 0);

    // What lies within the grid is drawn.
    for (j, byte) in sprite[..(HEIGHT - y as usize)].iter().enumerate() {
        let cur_y = y as usize + j;
        for i in 0..(WIDTH - x as usize) {
            let bit = (byte >> (7 - i)) & 1;
            let buf_ind: usize = (WIDTH * cur_y) + (x as usize + i);
            if bit == 1 {
                assert_eq!(buf[buf_ind], ON_PIXEL);
            } else {
                assert_eq!(buf[buf_ind], OFF_PIXEL);
            }
        }
    }

    // What would lie behind the edge is not drawn on the other side.
    for (j, _) in sprite[(HEIGHT - y as usize)..].iter().enumerate() {
        let cur_y = y as usize + j;
        for i in (WIDTH - x as usize)..8 {
            let buf_ind: usize = (WIDTH * cur_y) + (x as usize + i);
            assert_eq!(buf[buf_ind], OFF_PIXEL);
        }
    }
}

// Pixels that are lit go dark where the sprite paints them.
#[test]
fn update_buf_sprite_vf_check() {
    let mut buf: [u8; 2048] = [OFF_PIXEL; 2048];
    let sprite: Vec<u8> = vec![0xF0, 0x80, 0xF0, 0x80, 0x80];

    let x: u8 = 32;
    let y: u8 = 16;

    // The buffer as it is after the sprite was drawn once.
    for (j, byte) in sprite.iter().enumerate() {
        let cur_y = y as usize + j;
        for i in 0..8 {
            let bit = (byte >> (7 - i)) & 1;
            let buf_ind: usize = (WIDTH * cur_y) + (x + i) as usize;
            buf[buf_ind] = if bit == 1 { ON_PIXEL } else { OFF_PIXEL };
        }
    }

    let vf = Display::update_buf_sprite(&mut buf, x, y, &sprite);
    assert_eq!(vf, 1);

    for (j, _) in sprite.iter().enumerate() {
        let cur_y = y as usize + j;
        for _ in 0..8 {
            let buf_ind: usize = (WIDTH * cur_y) + (x + 1) as usize;
            assert_eq!(buf[buf_ind], OFF_PIXEL)
        }
    }
}

#[test]
fn key_state() {
    let mut disp = Display::new();

    // A key goes down.
    assert!(Display::set_key_state(&mut disp, 2, KeyAction::Pressed).is_ok());
    assert_eq!(Display::get_key_state(&disp, 1).unwrap(), true);

    // It is reported down again.
    assert!(Display::set_key_state(&mut disp, 2, KeyAction::Pressed).is_ok());
    assert_eq!(Display::get_key_state(&disp, 1).unwrap(), true);

    // It comes up.
    assert!(Display::set_key_state(&mut disp, 2, KeyAction::Released).is_ok());
    assert_eq!(Display::get_key_state(&disp, 1).unwrap(), false);

    // A scan code that stands for no key.
    assert!(Display::set_key_state(&mut disp, 93, KeyAction::Pressed).is_err());

    // Two keys go down one after the other; the first stays down.
    assert!(Display::set_key_state(&mut disp, 2, KeyAction::Pressed).is_ok());
    assert!(Display::set_key_state(&mut disp, 3, KeyAction::Pressed).is_ok());
    assert_eq!(Display::get_key_state(&disp, 2).unwrap(), true);
}
