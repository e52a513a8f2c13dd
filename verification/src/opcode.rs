//! The bit fields of a 16-bit instruction word.
//!
//! An instruction is written `FXYN`: `F` selects the family, `X` and `Y` name
//! registers, `N` is a 4-bit immediate, `NN` (the low byte) an 8-bit immediate
//! and `NNN` (the low twelve bits) an address.

use vstd::prelude::*;

verus! {

/// The family of an instruction: its top four bits.
pub open spec fn family(op: u16) -> int {
    op as int / 4096
}

/// The `X` field: bits 8 to 11.
pub open spec fn x_of(op: u16) -> int {
    (op as int / 256) % 16
}

/// The `Y` field: bits 4 to 7.
pub open spec fn y_of(op: u16) -> int {
    (op as int / 16) % 16
}

/// The `N` field: the low four bits.
pub open spec fn n_of(op: u16) -> int {
    op as int % 16
}

/// The `NN` field: the low byte.
pub open spec fn nn_of(op: u16) -> u8 {
    (op as int % 256) as u8
}

/// The `NNN` field: the low twelve bits.
pub open spec fn nnn_of(op: u16) -> u16 {
    (op as int % 4096) as u16
}

/// The instruction word made of two consecutive bytes, high byte first.
pub open spec fn word(hi: u8, lo: u8) -> u16 {
    (hi as int * 256 + lo as int) as u16
}

/// Joins two bytes into an instruction word, high byte first.
pub fn join(hi: u8, lo: u8) -> (op: u16)
    ensures
        op == word(hi, lo),
{
    let op: u16 = ((hi as u16) << 8) | (lo as u16);
    assert(((hi as u16) << 8) | (lo as u16) == (hi as u16) * 256 + (lo as u16)) by (bit_vector);
    op
}

/// Reads the family of an instruction.
pub fn family_index(op: u16) -> (f: usize)
    ensures
        f == family(op),
        f < 16,
{
    assert((op & 0xF000) >> 12 == op / 4096) by (bit_vector);
    ((op & 0xF000) >> 12) as usize
}

/// Reads the `X` field.
pub fn x_index(op: u16) -> (x: usize)
    ensures
        x == x_of(op),
        x < 16,
{
    assert((op & 0x0F00) >> 8 == (op / 256) % 16) by (bit_vector);
    ((op & 0x0F00) >> 8) as usize
}

/// Reads the `Y` field.
pub fn y_index(op: u16) -> (y: usize)
    ensures
        y == y_of(op),
        y < 16,
{
    assert((op & 0x00F0) >> 4 == (op / 16) % 16) by (bit_vector);
    ((op & 0x00F0) >> 4) as usize
}

/// Reads the `N` field.
pub fn nibble(op: u16) -> (n: usize)
    ensures
        n == n_of(op),
        n < 16,
{
    assert(op & 0x000F == op % 16) by (bit_vector);
    (op & 0x000F) as usize
}

/// Reads the `NN` field.
pub fn low_byte(op: u16) -> (nn: u8)
    ensures
        nn == nn_of(op),
{
    assert(op & 0x00FF == op % 256) by (bit_vector);
    (op & 0x00FF) as u8
}

/// Reads the `NNN` field.
pub fn address(op: u16) -> (nnn: u16)
    ensures
        nnn == nnn_of(op),
        nnn < 4096,
{
    assert(op & 0x0FFF == op % 4096) by (bit_vector);
    op & 0x0FFF
}

} // verus!
