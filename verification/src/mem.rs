//! The address space: 4096 bytes, the font at 0x050, programs from 0x200.

use vstd::prelude::*;
use crate::error::Error;

verus! {

/// Number of addressable bytes.
pub const MEM_SIZE: usize = 4096;

/// Address at which programs are loaded.
pub const PROGRAM_ADDRESS: usize = 0x200;

/// Address of the first font glyph.
pub const FONT_ADDRESS: usize = 0x50;

/// Number of bytes in one font glyph.
pub const FONT_HEIGHT: usize = 5;

/// The flat memory of the machine.
pub struct Memory {
    /// The bytes, by address.
    pub mem: [u8; 4096],
}

impl View for Memory {
    type V = Seq<u8>;

    open spec fn view(&self) -> Seq<u8> {
        self.mem@
    }
}

/// `mem` with the bytes from `at` on replaced by `data`.
pub open spec fn splice(mem: Seq<u8>, at: int, data: Seq<u8>) -> Seq<u8> {
    mem.subrange(0, at) + data + mem.subrange(at + data.len(), mem.len() as int)
}

/// Whether a program of `len` bytes fits behind the program base.
pub open spec fn program_fits(len: nat) -> bool {
    len <= MEM_SIZE - PROGRAM_ADDRESS
}

/// The built-in font: sixteen glyphs of five rows each, for the digits 0 to F.
pub open spec fn font_glyphs() -> Seq<u8> {
    seq![
        0xF0u8, 0x90u8, 0x90u8, 0x90u8, 0xF0u8,
        0x20u8, 0x60u8, 0x20u8, 0x20u8, 0x70u8,
        0xF0u8, 0x10u8, 0xF0u8, 0x80u8, 0xF0u8,
        0xF0u8, 0x10u8, 0xF0u8, 0x10u8, 0xF0u8,
        0x90u8, 0x90u8, 0xF0u8, 0x10u8, 0x10u8,
        0xF0u8, 0x80u8, 0xF0u8, 0x10u8, 0xF0u8,
        0xF0u8, 0x80u8, 0xF0u8, 0x90u8, 0xF0u8,
        0xF0u8, 0x10u8, 0x20u8, 0x40u8, 0x40u8,
        0xF0u8, 0x90u8, 0xF0u8, 0x90u8, 0xF0u8,
        0xF0u8, 0x90u8, 0xF0u8, 0x10u8, 0xF0u8,
        0xF0u8, 0x90u8, 0xF0u8, 0x90u8, 0x90u8,
        0xE0u8, 0x90u8, 0xE0u8, 0x90u8, 0xE0u8,
        0xF0u8, 0x80u8, 0x80u8, 0x80u8, 0xF0u8,
        0xE0u8, 0x90u8, 0x90u8, 0x90u8, 0xE0u8,
        0xF0u8, 0x80u8, 0xF0u8, 0x80u8, 0xF0u8,
        0xF0u8, 0x80u8, 0xF0u8, 0x80u8, 0x80u8,
    ]
}

/// Memory as it is before a program is loaded: zero but for the font.
pub open spec fn initial_memory() -> Seq<u8> {
    splice(Seq::new(MEM_SIZE as nat, |a: int| 0u8), FONT_ADDRESS as int, font_glyphs())
}

/// Address of the glyph for the low nibble of `digit`.
pub open spec fn font_addr(digit: u8) -> int {
    FONT_ADDRESS + FONT_HEIGHT * (digit % 16)
}

impl Memory {
    /// A zeroed memory with the font in place.
    pub fn new() -> (m: Memory)
        ensures
            m@ == initial_memory(),
    {
        let mut m = Memory { mem: [0u8; 4096] };
        m.load_font();
        m
    }

    /// Writes the font glyphs to their fixed place.
    pub fn load_font(&mut self)
        ensures
            final(self)@ == splice(old(self)@, FONT_ADDRESS as int, font_glyphs()),
    {
        let font: [u8; 80] = [
            0xF0, 0x90, 0x90, 0x90, 0xF0,
            0x20, 0x60, 0x20, 0x20, 0x70,
            0xF0, 0x10, 0xF0, 0x80, 0xF0,
            0xF0, 0x10, 0xF0, 0x10, 0xF0,
            0x90, 0x90, 0xF0, 0x10, 0x10,
            0xF0, 0x80, 0xF0, 0x10, 0xF0,
            0xF0, 0x80, 0xF0, 0x90, 0xF0,
            0xF0, 0x10, 0x20, 0x40, 0x40,
            0xF0, 0x90, 0xF0, 0x90, 0xF0,
            0xF0, 0x90, 0xF0, 0x10, 0xF0,
            0xF0, 0x90, 0xF0, 0x90, 0x90,
            0xE0, 0x90, 0xE0, 0x90, 0xE0,
            0xF0, 0x80, 0x80, 0x80, 0xF0,
            0xE0, 0x90, 0x90, 0x90, 0xE0,
            0xF0, 0x80, 0xF0, 0x80, 0xF0,
            0xF0, 0x80, 0xF0, 0x80, 0x80,
        ];
        assert(font@ =~= font_glyphs());
        let mut i: usize = 0;
        while i < 80
            invariant
                i <= 80,
                font@ == font_glyphs(),
                self@ == splice(old(self)@, FONT_ADDRESS as int, font_glyphs().subrange(0, i as int)),
            decreases 80 - i,
        {
            self.mem[FONT_ADDRESS + i] = font[i];
            i = i + 1;
        }
        assert(font_glyphs().subrange(0, i as int) == font_glyphs());
    }

    /// Address of the glyph for the low nibble of `font`; higher bits are ignored.
    pub fn get_font_addr(&self, font: u8) -> (addr: usize)
        ensures
            addr == font_addr(font),
    {
        assert(font & 0xF == font % 16) by (bit_vector);
        FONT_ADDRESS + FONT_HEIGHT * ((font & 0xF) as usize)
    }

    /// Copies `program` to the program base. A program that does not fit is
    /// refused and memory is left as it was.
    pub fn load_program(&mut self, program: &Vec<u8>) -> (res: Result<i32, Error>)
        ensures
            program_fits(program@.len()) ==> res == Ok::<i32, Error>(0) && final(self)@ == splice(
                old(self)@,
                PROGRAM_ADDRESS as int,
                program@,
            ),
            !program_fits(program@.len()) ==> res == Err::<i32, Error>(Error::ProgramTooLarge)
                && final(self)@ == old(self)@,
    {
        if program.len() > MEM_SIZE - PROGRAM_ADDRESS {
            return Err(Error::ProgramTooLarge);
        }
        let mut i: usize = 0;
        while i < program.len()
            invariant
                i <= program.len() <= MEM_SIZE - PROGRAM_ADDRESS,
                self@ == splice(old(self)@, PROGRAM_ADDRESS as int, program@.subrange(0, i as int)),
            decreases program.len() - i,
        {
            self.mem[PROGRAM_ADDRESS + i] = program[i];
            i = i + 1;
        }
        assert(program@.subrange(0, i as int) == program@);
        Ok(0)
    }

    /// The byte at `addr`, or `OutOfBounds` for an address past the end.
    pub fn read(&self, addr: usize) -> (res: Result<u8, Error>)
        ensures
            addr < MEM_SIZE ==> res == Ok::<u8, Error>(self@[addr as int]),
            addr >= MEM_SIZE ==> res == Err::<u8, Error>(Error::OutOfBounds),
    {
        if addr >= MEM_SIZE {
            return Err(Error::OutOfBounds);
        }
        Ok(self.mem[addr])
    }
}

} // verus!
