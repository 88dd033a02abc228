//! The grid and its linear colour buffer: dimensions, the cell-to-byte
//! indexing scheme, and the cell predicates the species rules read.

use vstd::prelude::*;

verus! {

/// Width of the grid in cells.
pub const WIDTH: u32 = 200;

/// Height of the grid in cells.
pub const HEIGHT: u32 = 150;

/// The sentinel byte an empty cell holds on all four channels.
pub const BACKGROUND: u8 = 150;

/// Byte length of a well-formed frame buffer: one 4-byte RGBA cell per
/// grid position, row-major.
pub const FRAME_BYTES: u32 = 200 * 150 * 4;

/// A coordinate pair addresses a cell of the grid.
pub open spec fn in_grid(x: int, y: int) -> bool {
    0 <= x < WIDTH && 0 <= y < HEIGHT
}

/// Byte offset of the R channel of cell `(x, y)` in a frame buffer.
pub open spec fn cell_index(x: int, y: int) -> int {
    (y * WIDTH + x) * 4
}

/// A frame buffer holds exactly one 4-byte cell per grid position.
pub open spec fn frame_wf(f: Seq<u8>) -> bool {
    f.len() == FRAME_BYTES
}

/// The occupancy test most species use: a cell counts as free exactly when
/// its blue channel holds the background sentinel. The other three channels
/// are deliberately not consulted: a known fragility, since any species
/// whose colour carried 150 in its blue byte would be mistaken for empty
/// space - none of the current spawn colours does - and it is kept
/// as-is rather than silently corrected.
pub open spec fn cell_free(f: Seq<u8>, x: int, y: int) -> bool {
    f[cell_index(x, y) + 2] == BACKGROUND
}

/// The four channels of cell `(x, y)` equal the four bytes of `c`.
pub open spec fn cell_is(f: Seq<u8>, x: int, y: int, c: Seq<u8>) -> bool {
    &&& f[cell_index(x, y)] == c[0]
    &&& f[cell_index(x, y) + 1] == c[1]
    &&& f[cell_index(x, y) + 2] == c[2]
    &&& f[cell_index(x, y) + 3] == c[3]
}

/// Maps a grid position to the byte offset of its cell in the frame buffer.
/// The caller guarantees the position lies on the grid; three more valid
/// bytes (G, B, A) always follow the returned offset.
pub fn position_to_index(x: u32, y: u32) -> (i: usize)
    requires
        in_grid(x as int, y as int),
    ensures
        i == cell_index(x as int, y as int),
        i + 4 <= FRAME_BYTES,
{
    ((y * WIDTH + x) * 4) as usize
}

/// Every cell's byte offset is 4-byte-aligned and leaves room for a whole
/// 4-byte cell inside the frame buffer.
pub proof fn lemma_cell_index_aligned(x: int, y: int)
    requires
        in_grid(x, y),
    ensures
        cell_index(x, y) % 4 == 0,
        0 <= cell_index(x, y),
        cell_index(x, y) + 4 <= FRAME_BYTES,
{
}

/// Cell offsets grow strictly in lexicographic (y, x) order.
pub proof fn lemma_cell_index_lex_increasing(x1: int, y1: int, x2: int, y2: int)
    requires
        in_grid(x1, y1),
        in_grid(x2, y2),
        y1 < y2 || (y1 == y2 && x1 < x2),
    ensures
        cell_index(x1, y1) < cell_index(x2, y2),
{
}

/// Distinct cells never share a byte offset.
pub proof fn lemma_cell_index_injective(x1: int, y1: int, x2: int, y2: int)
    requires
        in_grid(x1, y1),
        in_grid(x2, y2),
        cell_index(x1, y1) == cell_index(x2, y2),
    ensures
        x1 == x2 && y1 == y2,
{
    if y1 < y2 || (y1 == y2 && x1 < x2) {
        lemma_cell_index_lex_increasing(x1, y1, x2, y2);
    }
    if y2 < y1 || (y2 == y1 && x2 < x1) {
        lemma_cell_index_lex_increasing(x2, y2, x1, y1);
    }
}

} // verus!
