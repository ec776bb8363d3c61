//! The 64x32 frame buffer and the state of the sixteen keys.

use vstd::prelude::*;
use std::collections::HashMap;
use crate::error::Error;

verus! {

/// Pixels in a row of the frame buffer.
pub const WIDTH: usize = 64;

/// Rows of the frame buffer.
pub const HEIGHT: usize = 32;

/// Byte of a lit pixel.
pub const ON_PIXEL: u8 = 0xFF;

/// Byte of a dark pixel.
pub const OFF_PIXEL: u8 = 0x0;

/// Bytes in the frame buffer: one per pixel, row after row.
pub const PIXELS: usize = 2048;

/// What a key did.
#[derive(Clone, Copy, Debug, PartialEq, Eq, Structural)]
pub enum KeyAction {
    Pressed,
    Released,
}

/// An event from the window that shows the frame buffer.
#[derive(Clone, Copy, Debug, PartialEq, Eq, Structural)]
pub enum WindowEvent {
    /// A key of the host keyboard, by scan code, was pressed or released.
    KeyboardInput(u32, KeyAction),
    /// The window is asked to close.
    CloseRequested,
    /// Anything else.
    Other,
}

/// What the caller of `handle_window_event` is to do next.
#[derive(Clone, Copy, Debug, PartialEq, Eq, Structural)]
pub enum Reaction {
    /// Go on with the next event.
    Continue,
    /// The event was refused for the reason given; go on with the next event.
    Rejected(Error),
    /// End the process.
    Exit,
}

/// Whether bit `col` of a sprite row is set; bit 0 is the leftmost pixel.
pub open spec fn sprite_bit(row: u8, col: int) -> bool {
    (row >> ((7 - col) as u8)) & 1u8 == 1u8
}

/// Whether drawing `sprite` with its top left corner at (`x`, `y`) paints
/// the pixel in column `col` of row `row`. Nothing outside the grid is
/// painted: a sprite that reaches an edge is cut off there.
pub open spec fn paints(x: int, y: int, sprite: Seq<u8>, col: int, row: int) -> bool {
    &&& 0 <= col < WIDTH
    &&& 0 <= row < HEIGHT
    &&& x <= col < x + 8
    &&& y <= row < y + sprite.len()
    &&& sprite_bit(sprite[row - y], col - x)
}

/// A pixel after it is painted: lit pixels go dark, all others are lit.
pub open spec fn toggled(pixel: u8) -> u8 {
    if pixel == ON_PIXEL {
        OFF_PIXEL
    } else {
        ON_PIXEL
    }
}

/// The frame buffer after `sprite` is drawn at (`x`, `y`).
pub open spec fn drawn(buf: Seq<u8>, x: int, y: int, sprite: Seq<u8>) -> Seq<u8> {
    Seq::new(
        buf.len(),
        |p: int|
            if paints(x, y, sprite, p % (WIDTH as int), p / (WIDTH as int)) {
                toggled(buf[p])
            } else {
                buf[p]
            },
    )
}

/// Whether drawing `sprite` at (`x`, `y`) paints a pixel that is lit.
pub open spec fn collides(buf: Seq<u8>, x: int, y: int, sprite: Seq<u8>) -> bool {
    exists|p: int|
        0 <= p < buf.len() && paints(x, y, sprite, p % (WIDTH as int), p / (WIDTH as int))
            && #[trigger] buf[p] == ON_PIXEL
}

/// Whether `sprite` at (`x`, `y`) paints the pixel at (`col`, `row`) with
/// one of its first `rows` rows, or with one of the first `bits` bits of
/// the row after them.
pub open spec fn paints_within(
    x: int,
    y: int,
    sprite: Seq<u8>,
    col: int,
    row: int,
    rows: int,
    bits: int,
) -> bool {
    paints(x, y, sprite, col, row) && (row - y < rows || (row - y == rows && col - x < bits))
}

/// Whether `sprite` at (`x`, `y`) paints a lit pixel with one of its first
/// `rows` rows, or with one of the first `bits` bits of the row after them.
pub open spec fn collides_within(
    buf: Seq<u8>,
    x: int,
    y: int,
    sprite: Seq<u8>,
    rows: int,
    bits: int,
) -> bool {
    exists|p: int|
        0 <= p < buf.len() && paints_within(
            x,
            y,
            sprite,
            p % (WIDTH as int),
            p / (WIDTH as int),
            rows,
            bits,
        ) && #[trigger] buf[p] == ON_PIXEL
}

/// A frame buffer with every pixel dark.
pub open spec fn blank() -> Seq<u8> {
    Seq::new(PIXELS as nat, |p: int| OFF_PIXEL)
}

/// The key that a host scan code stands for, if any. The sixteen keys lie
/// on the host keyboard as on the 4x4 keypad.
pub open spec fn key_of_scancode(scancode: u32) -> Option<u8> {
    match scancode {
        2 => Some(0x1u8),
        3 => Some(0x2u8),
        4 => Some(0x3u8),
        5 => Some(0xCu8),
        16 => Some(0x4u8),
        17 => Some(0x5u8),
        18 => Some(0x6u8),
        19 => Some(0xDu8),
        30 => Some(0x7u8),
        31 => Some(0x8u8),
        32 => Some(0x9u8),
        33 => Some(0xEu8),
        44 => Some(0xAu8),
        45 => Some(0x0u8),
        46 => Some(0xBu8),
        47 => Some(0xFu8),
        _ => None,
    }
}

/// What a `Display` holds.
#[verifier::ext_equal]
pub struct DisplayView {
    /// The frame buffer, row after row.
    pub pixels: Seq<u8>,
    /// The keys that were pressed or released so far, `true` for pressed.
    pub keys: Map<u8, bool>,
}

impl DisplayView {
    /// A well-formed state: the buffer has one byte for each pixel, every
    /// pixel is lit or dark, and only the sixteen keys are recorded.
    pub open spec fn wf(self) -> bool {
        &&& self.pixels.len() == PIXELS
        &&& forall|p: int|
            0 <= p < PIXELS ==> self.pixels[p] == ON_PIXEL || self.pixels[p] == OFF_PIXEL
        &&& forall|k: u8| self.keys.contains_key(k) ==> k <= 0xF
    }

    /// Whether `key` is down. A key that was never touched is up.
    pub open spec fn key_down(self, key: u8) -> bool {
        self.keys.contains_key(key) && self.keys[key]
    }

    /// The state after `key` was pressed or released.
    pub open spec fn with_key(self, key: u8, action: KeyAction) -> DisplayView {
        DisplayView { keys: self.keys.insert(key, action == KeyAction::Pressed), ..self }
    }

    /// The state after the key with the host scan code `scancode` was
    /// pressed or released. A scan code that stands for no key changes nothing.
    pub open spec fn with_scancode(self, scancode: u32, action: KeyAction) -> DisplayView {
        match key_of_scancode(scancode) {
            Some(key) => self.with_key(key, action),
            None => self,
        }
    }

    /// The state after a window event.
    pub open spec fn after_event(self, event: WindowEvent) -> DisplayView {
        match event {
            WindowEvent::KeyboardInput(scancode, action) => self.with_scancode(scancode, action),
            _ => self,
        }
    }
}

/// What is to be done after a window event.
pub open spec fn reaction_to(event: WindowEvent) -> Reaction {
    match event {
        WindowEvent::KeyboardInput(scancode, _) => if key_of_scancode(scancode) is Some {
            Reaction::Continue
        } else {
            Reaction::Rejected(Error::InvalidKeyCode(scancode))
        },
        WindowEvent::CloseRequested => Reaction::Exit,
        WindowEvent::Other => Reaction::Continue,
    }
}

/// The frame buffer and the keys.
pub struct Display {
    buf: [u8; 2048],
    keys_state: HashMap<u8, bool>,
}

impl View for Display {
    type V = DisplayView;

    closed spec fn view(&self) -> DisplayView {
        DisplayView { pixels: self.buf@, keys: self.keys_state@ }
    }
}

impl Display {
    /// A dark frame buffer and no key touched.
    pub fn new() -> (disp: Display)
        ensures
            disp@ == (DisplayView { pixels: blank(), keys: Map::empty() }),
            disp@.wf(),
    {
        Display { buf: [OFF_PIXEL; 2048], keys_state: HashMap::new() }
    }

    /// The frame buffer, one byte for each pixel, row after row.
    pub fn buffer(&self) -> (buf: &[u8; 2048])
        ensures
            buf@ == self@.pixels,
    {
        &self.buf
    }

    /// The key that a host scan code stands for, or `InvalidKeyCode` with
    /// the scan code where it stands for none.
    pub fn scancode_to_key(scancode: u32) -> (res: Result<u8, Error>)
        ensures
            res == match key_of_scancode(scancode) {
                Some(key) => Ok::<u8, Error>(key),
                None => Err::<u8, Error>(Error::InvalidKeyCode(scancode)),
            },
            res matches Ok(key) ==> key <= 0xF,
    {
        match scancode {
            2 => Ok(0x1),
            3 => Ok(0x2),
            4 => Ok(0x3),
            5 => Ok(0xC),
            16 => Ok(0x4),
            17 => Ok(0x5),
            18 => Ok(0x6),
            19 => Ok(0xD),
            30 => Ok(0x7),
            31 => Ok(0x8),
            32 => Ok(0x9),
            33 => Ok(0xE),
            44 => Ok(0xA),
            45 => Ok(0x0),
            46 => Ok(0xB),
            47 => Ok(0xF),
            _ => Err(Error::InvalidKeyCode(scancode)),
        }
    }

    /// Records that the key with the host scan code `scan_code` was pressed
    /// or released. A scan code that stands for no key is refused and
    /// nothing is recorded.
    pub fn set_key_state(&mut self, scan_code: u32, state: KeyAction) -> (res: Result<i32, Error>)
        ensures
            final(self)@ == old(self)@.with_scancode(scan_code, state),
            res == if key_of_scancode(scan_code) is Some {
                Ok::<i32, Error>(0)
            } else {
                Err::<i32, Error>(Error::InvalidKeyCode(scan_code))
            },
            old(self)@.wf() ==> final(self)@.wf(),
    {
        broadcast use vstd::std_specs::hash::group_hash_axioms;

        let key_code = match Display::scancode_to_key(scan_code) {
            Ok(key_code) => key_code,
            Err(e) => {
                return Err(e);
            },
        };
        match state {
            KeyAction::Pressed => {
                self.keys_state.insert(key_code, true);
            },
            KeyAction::Released => {
                self.keys_state.insert(key_code, false);
            },
        }
        Ok(0)
    }

    /// Whether `key` is down. A key that was never touched is up. A code
    /// above 0xF names no key and is refused.
    pub fn get_key_state(&self, key: u8) -> (res: Result<bool, Error>)
        ensures
            key <= 0xF ==> res == Ok::<bool, Error>(self@.key_down(key)),
            key > 0xF ==> res == Err::<bool, Error>(Error::InvalidKeyCode(key as u32)),
    {
        broadcast use vstd::std_specs::hash::group_hash_axioms;

        if key > 0xF {
            Err(Error::InvalidKeyCode(key as u32))
        } else {
            match self.keys_state.get(&key) {
                Some(val) => Ok(*val),
                None => Ok(false),
            }
        }
    }

    /// Takes in one window event: a key event is recorded, a request to
    /// close asks the caller to end the process, anything else is passed over.
    pub fn handle_window_event(&mut self, event: WindowEvent) -> (reaction: Reaction)
        ensures
            final(self)@ == old(self)@.after_event(event),
            reaction == reaction_to(event),
            old(self)@.wf() ==> final(self)@.wf(),
    {
        match event {
            WindowEvent::KeyboardInput(scan_code, state) => {
                match self.set_key_state(scan_code, state) {
                    Ok(_) => Reaction::Continue,
                    Err(e) => Reaction::Rejected(e),
                }
            },
            WindowEvent::CloseRequested => Reaction::Exit,
            WindowEvent::Other => Reaction::Continue,
        }
    }

    /// Sets every byte of `buf` to zero.
    pub fn clear_buf(buf: &mut [u8; 2048])
        ensures
            final(buf)@ == blank(),
    {
        let mut p: usize = 0;
        while p < PIXELS
            invariant
                p <= PIXELS,
                forall|q: int| 0 <= q < p ==> buf@[q] == OFF_PIXEL,
            decreases PIXELS - p,
        {
            buf[p] = 0;
            p = p + 1;
        }
    }

    /// Draws `sprite` into `buf` with its top left corner in column `x` of
    /// row `y`: each set bit of the sprite toggles its pixel. Returns 1 if a
    /// lit pixel went dark, else 0. Rows and bits that fall off the grid are
    /// left out; nothing wraps round to the other side.
    pub fn update_buf_sprite(buf: &mut [u8; 2048], x: u8, y: u8, sprite: &Vec<u8>) -> (vf: u8)
        ensures
            final(buf)@ == drawn(old(buf)@, x as int, y as int, sprite@),
            vf == if collides(old(buf)@, x as int, y as int, sprite@) { 1u8 } else { 0u8 },
    {
        let mut vf: u8 = 0;
        let mut i: usize = 0;
        while i < sprite.len() && y as usize + i < HEIGHT
            invariant
                i <= HEIGHT,
                i <= sprite.len(),
                vf == 0 || vf == 1,
                forall|p: int|
                    0 <= p < PIXELS ==> buf@[p] == if paints_within(
                        x as int,
                        y as int,
                        sprite@,
                        p % (WIDTH as int),
                        p / (WIDTH as int),
                        i as int,
                        0,
                    ) {
                        toggled(old(buf)@[p])
                    } else {
                        old(buf)@[p]
                    },
                vf == 1 <==> collides_within(old(buf)@, x as int, y as int, sprite@, i as int, 0),
            decreases sprite.len() - i,
        {
            let cur_y: usize = y as usize + i;
            let cur_byte: u8 = sprite[i];
            let mut b: u8 = 0;
            while b < 8 && x as usize + (b as usize) < WIDTH
                invariant
                    b <= 8,
                    i < sprite.len(),
                    cur_y == y + i,
                    cur_y < HEIGHT,
                    cur_byte == sprite@[i as int],
                    vf == 0 || vf == 1,
                    forall|p: int|
                        0 <= p < PIXELS ==> buf@[p] == if paints_within(
                            x as int,
                            y as int,
                            sprite@,
                            p % (WIDTH as int),
                            p / (WIDTH as int),
                            i as int,
                            b as int,
                        ) {
                            toggled(old(buf)@[p])
                        } else {
                            old(buf)@[p]
                        },
                    vf == 1 <==> collides_within(
                        old(buf)@,
                        x as int,
                        y as int,
                        sprite@,
                        i as int,
                        b as int,
                    ),
                decreases 8 - b,
            {
                let cur_x: usize = x as usize + b as usize;
                let bit: u8 = (cur_byte >> (7 - b)) & 1;
                if bit == 1 {
                    let buf_ind: usize = WIDTH * cur_y + cur_x;
                    assert(buf_ind as int % (WIDTH as int) == cur_x && buf_ind as int / (WIDTH as int)
                        == cur_y);
                    assert(paints_within(
                        x as int,
                        y as int,
                        sprite@,
                        buf_ind as int % (WIDTH as int),
                        buf_ind as int / (WIDTH as int),
                        i as int,
                        b as int + 1,
                    ));
                    if buf[buf_ind] == ON_PIXEL {
                        buf[buf_ind] = OFF_PIXEL;
                        vf = 1;
                    } else {
                        buf[buf_ind] = ON_PIXEL;
                    }
                }
                b = b + 1;
            }
            i = i + 1;
        }
        assert(buf@ =~= drawn(old(buf)@, x as int, y as int, sprite@));
        vf
    }

    /// Draws `sprite` at column `x` of row `y` and returns the collision flag.
    pub fn draw(&mut self, x: u8, y: u8, sprite: &Vec<u8>) -> (vf: u8)
        ensures
            final(self)@ == (DisplayView {
                pixels: drawn(old(self)@.pixels, x as int, y as int, sprite@),
                ..old(self)@
            }),
            vf == if collides(old(self)@.pixels, x as int, y as int, sprite@) { 1u8 } else { 0u8 },
            old(self)@.wf() ==> final(self)@.wf(),
    {
        Display::update_buf_sprite(&mut self.buf, x, y, sprite)
    }

    /// Darkens every pixel.
    pub fn clear(&mut self)
        ensures
            final(self)@ == (DisplayView { pixels: blank(), ..old(self)@ }),
            old(self)@.wf() ==> final(self)@.wf(),
    {
        Display::clear_buf(&mut self.buf);
    }
}

} // verus!
