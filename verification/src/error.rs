//! The failures that the machine reports.

use vstd::prelude::*;

verus! {

/// Why an operation of the machine was refused.
#[derive(Clone, Copy, Debug, PartialEq, Eq, Structural)]
pub enum Error {
    /// A memory access at an address of 4096 or more.
    OutOfBounds,
    /// A program that does not fit between the program base and the end of memory.
    ProgramTooLarge,
    /// An instruction fetch that would read past the end of memory.
    FetchOutOfBounds,
    /// An instruction whose leading nibble selects no operation; holds the instruction.
    UnknownOpcode(u16),
    /// An instruction of a known family whose selector names no member; holds the instruction.
    UnhandledSubOpcode(u16),
    /// A key code that names none of the sixteen keys; holds the code.
    InvalidKeyCode(u32),
}

} // verus!
