//! An interpreter core for the CHIP-8 virtual machine: a 4 KiB address
//! space, sixteen 8-bit registers, a call stack, a 64x32 monochrome frame
//! buffer, a 16-key keypad and two 60 Hz countdown timers.
//!
//! Every function is verified against a contract stated over the
//! mathematical view of the machine state.
//!
//! - `mem`: the address space, with the font and the program.
//! - `opcode`: the fields of an instruction word.
//! - `display`: the frame buffer, sprite drawing and the keys.
//! - `timer`: the delay and sound counters.
//! - `cpu`: the interpreter, one function for each instruction, `decode`
//!   to tell them apart, and `cycle` for a fetch and the instruction it
//!   brings.
//! - `model`: the machine as plain values, and what each instruction makes
//!   of it; the contracts of `cpu` are stated over it.
//! - `laws`: what holds of the machine whatever the program, proved from
//!   the model.
//! - `error`: the failures.
//!
//! The library holds the state of the machine and changes it only when
//! called. Windows, sound, threads and clocks are the caller's: a caller
//! locks what it shares, calls `cycle` at the pace of the processor and
//! `Timer::one_iteration` sixty times a second, shows `Display::buffer`
//! and hands window events to `Display::handle_window_event`.

pub mod cpu;
pub mod display;
pub mod error;
pub mod laws;
pub mod mem;
pub mod model;
pub mod opcode;
mod rng;
pub mod timer;
