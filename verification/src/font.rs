//! The built-in character sprites.
//!
//! Sixteen glyphs, one per hexadecimal digit, each five rows of eight pixels
//! of which the left four are used. They occupy the first eighty bytes of
//! memory, glyph `d` at address `5 * d`.

use vstd::prelude::*;

verus! {

/// Rows per glyph.
pub const GLYPH_ROWS: u16 = 5;

/// Bytes taken by the whole table.
pub const FONT_SIZE: usize = 80;

/// The table itself, digit `0` first.
pub const FONT: [u8; 80] = [
    0xF0, 0x90, 0x90, 0x90, 0xF0,
    0x20, 0x60, 0x20, 0x20, 0x70,
    0xF0, 0x10, 0xF0, 0x80, 0xF0,
    0xF0, 0x10, 0xF0, 0x10, 0xF0,
    0x90, 0x90, 0xF0, 0x10, 0x10,
    0xF0, 0x80, 0xF0, 0x10, 0xF0,
    0xF0, 0x80, 0xF0, 0x90, 0xF0,
    0xF0, 0x10, 0x20, 0x40, 0x40,
    0xF0, 0x90, 0xF0, 0x90, 0xF0,
    0xF0, 0x90, 0xF0, 0x10, 0xF0,
    0xF0, 0x90, 0xF0, 0x90, 0x90,
    0xE0, 0x90, 0xE0, 0x90, 0xE0,
    0xF0, 0x80, 0x80, 0x80, 0xF0,
    0xE0, 0x90, 0x90, 0x90, 0xE0,
    0xF0, 0x80, 0xF0, 0x80, 0xF0,
    0xF0, 0x80, 0xF0, 0x80, 0x80,
];

/// The table as a sequence of bytes.
pub open spec fn font_table() -> Seq<u8> {
    FONT@
}

} // verus!
