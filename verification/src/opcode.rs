//! The fields of a 16-bit instruction word.
//!
//! An instruction is four nibbles. The leading one selects the family; the
//! rest hold, depending on the family, register indices `x` and `y`, a
//! 4-bit count `n`, an 8-bit immediate `nn` or a 12-bit address `nnn`.

use vstd::prelude::*;

verus! {

/// The leading nibble of an instruction.
pub open spec fn op_family(instr: u16) -> int {
    instr as int / 4096
}

/// The second nibble: index of the register `x`.
pub open spec fn op_x(instr: u16) -> int {
    (instr as int / 256) % 16
}

/// The third nibble: index of the register `y`.
pub open spec fn op_y(instr: u16) -> int {
    (instr as int / 16) % 16
}

/// The last nibble.
pub open spec fn op_n(instr: u16) -> int {
    instr as int % 16
}

/// The low byte.
pub open spec fn op_nn(instr: u16) -> int {
    instr as int % 256
}

/// The low twelve bits.
pub open spec fn op_nnn(instr: u16) -> int {
    instr as int % 4096
}

/// The 16-bit word whose high byte is `hi` and whose low byte is `lo`.
pub open spec fn word_of(hi: u8, lo: u8) -> int {
    hi as int * 256 + lo as int
}

/// Computes the leading nibble.
pub fn family(instr: u16) -> (f: u16)
    ensures
        f == op_family(instr),
        f < 16,
{
    assert((instr >> 12) & 0xF == instr / 4096 && instr / 4096 < 16) by (bit_vector);
    (instr >> 12) & 0xF
}

/// Computes the index of register `x`.
pub fn reg_x(instr: u16) -> (x: usize)
    ensures
        x == op_x(instr),
        x < 16,
{
    assert((instr >> 8) & 0xF == (instr / 256) % 16 && (instr / 256) % 16 < 16) by (bit_vector);
    ((instr >> 8) & 0xF) as usize
}

/// Computes the index of register `y`.
pub fn reg_y(instr: u16) -> (y: usize)
    ensures
        y == op_y(instr),
        y < 16,
{
    assert((instr >> 4) & 0xF == (instr / 16) % 16 && (instr / 16) % 16 < 16) by (bit_vector);
    ((instr >> 4) & 0xF) as usize
}

/// Computes the last nibble.
pub fn nibble(instr: u16) -> (n: u16)
    ensures
        n == op_n(instr),
        n < 16,
{
    assert(instr & 0xF == instr % 16 && instr % 16 < 16) by (bit_vector);
    instr & 0xF
}

/// Computes the low byte.
pub fn low_byte(instr: u16) -> (nn: u8)
    ensures
        nn == op_nn(instr),
{
    assert(instr & 0xFF == instr % 256 && instr % 256 < 256) by (bit_vector);
    (instr & 0xFF) as u8
}

/// Computes the low twelve bits.
pub fn address(instr: u16) -> (nnn: u16)
    ensures
        nnn == op_nnn(instr),
        nnn < 4096,
{
    assert(instr & 0xFFF == instr % 4096 && instr % 4096 < 4096) by (bit_vector);
    instr & 0xFFF
}

/// Joins two bytes into a word, high byte first.
pub fn join_bytes(hi: u8, lo: u8) -> (w: u16)
    ensures
        w == word_of(hi, lo),
{
    assert(((hi as u16) << 8) | (lo as u16) == (hi as u16) * 256 + (lo as u16)) by (bit_vector);
    ((hi as u16) << 8) | (lo as u16)
}

} // verus!
