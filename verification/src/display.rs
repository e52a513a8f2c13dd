//! Sprite drawing on the 64x32 framebuffer.
//!
//! A sprite is up to fifteen rows of eight pixels, one byte per row, the most
//! significant bit leftmost. Drawing XORs the sprite into the framebuffer; a
//! pixel that falls off an edge comes back in on the opposite one.

use vstd::prelude::*;

verus! {

/// Whether pixel `col` of a sprite row is set; column 0 is the leftmost.
pub open spec fn pixel_set(row: u8, col: u8) -> bool {
    row & (0x80u8 >> col) != 0
}

/// The framebuffer cell on which pixel (`row`, `col`) of a sprite drawn at
/// (`vx`, `vy`) lands.
pub open spec fn target(vx: int, vy: int, row: int, col: int) -> int {
    64 * ((vy + row) % 32) + (vx + col) % 64
}

/// The sprite row that covers framebuffer cell `k` when the sprite is drawn
/// at height `vy`, counted from the sprite's top.
pub open spec fn row_at(vy: int, k: int) -> int {
    (k / 64 - vy) % 32
}

/// The sprite column that covers framebuffer cell `k` when the sprite is
/// drawn at column `vx`, counted from the sprite's left.
pub open spec fn col_at(vx: int, k: int) -> int {
    (k % 64 - vx) % 64
}

/// Whether the sprite of `rows` bytes at the start of `sprite`, drawn at
/// (`vx`, `vy`), has a set pixel on framebuffer cell `k`.
pub open spec fn covers(sprite: Seq<u8>, vx: int, vy: int, k: int) -> bool {
    let row = row_at(vy, k);
    let col = col_at(vx, k);
    &&& row < sprite.len()
    &&& col < 8
    &&& pixel_set(sprite[row], col as u8)
}

/// A framebuffer cell after a set sprite pixel was XORed into it.
pub open spec fn flip(cell: u8) -> u8 {
    if cell == 1 {
        0
    } else {
        1
    }
}

/// The framebuffer after `sprite` was drawn at (`vx`, `vy`).
pub open spec fn drawn(gfx: Seq<u8>, sprite: Seq<u8>, vx: int, vy: int) -> Seq<u8> {
    Seq::new(
        gfx.len(),
        |k: int|
            if covers(sprite, vx, vy, k) {
                flip(gfx[k])
            } else {
                gfx[k]
            },
    )
}

/// Whether drawing `sprite` at (`vx`, `vy`) turns off a pixel that was lit.
pub open spec fn collides(gfx: Seq<u8>, sprite: Seq<u8>, vx: int, vy: int) -> bool {
    exists|k: int| 0 <= k < gfx.len() && covers(sprite, vx, vy, k) && gfx[k] == 1
}

/// Whether cell `k` is covered by a sprite pixel that comes before pixel
/// (`row`, `col`) when the sprite is drawn row by row, each row from the left.
pub open spec fn covers_before(sprite: Seq<u8>, vx: int, vy: int, k: int, row: int, col: int) -> bool {
    &&& covers(sprite, vx, vy, k)
    &&& (row_at(vy, k) < row || (row_at(vy, k) == row && col_at(vx, k) < col))
}

/// Each pixel of a sprite lands on one cell of the framebuffer, wrapped at
/// the edges, and on no other: the cell `target(vx, vy, row, col)` is covered
/// through (`row`, `col`) alone.
pub proof fn lemma_target_unique(vx: int, vy: int, row: int, col: int)
    requires
        0 <= vx,
        0 <= vy,
        0 <= row < 32,
        0 <= col < 64,
    ensures
        0 <= target(vx, vy, row, col) < 2048,
        row_at(vy, target(vx, vy, row, col)) == row,
        col_at(vx, target(vx, vy, row, col)) == col,
{
}

/// The cell that a sprite pixel covers is the target of that pixel.
pub proof fn lemma_covering_pixel(vx: int, vy: int, k: int)
    requires
        0 <= vx,
        0 <= vy,
        0 <= k < 2048,
    ensures
        0 <= row_at(vy, k) < 32,
        0 <= col_at(vx, k) < 64,
        target(vx, vy, row_at(vy, k), col_at(vx, k)) == k,
{
}

} // verus!
