//! The 64x32 monochrome frame buffer with XOR sprite blitting, toroidal
//! coordinate wrapping, collision detection, and a consume-and-reset
//! modification flag.

use vstd::arithmetic::div_mod::{lemma_add_mod_noop, lemma_mod_sub_multiples_vanish};
use vstd::arithmetic::div_mod::lemma_small_mod;
use vstd::prelude::*;

verus! {

/// Width of the display in pixels.
pub const DISPLAY_W: usize = 64;

/// Height of the display in pixels.
pub const DISPLAY_H: usize = 32;

/// Number of cells of the display, addressed as `y * 64 + x`.
pub const DISPLAY_CELLS: usize = 2048;

/// Index of the cell hit by bit `b` of sprite row `r` drawn at `(x, y)`.
/// Both coordinates wrap independently per pixel, producing toroidal
/// wraparound rather than sprite clipping.
pub open spec fn cell_idx(x: int, y: int, r: int, b: int) -> int {
    ((y + r) % (DISPLAY_H as int)) * (DISPLAY_W as int) + (x + b) % (DISPLAY_W as int)
}

/// Whether bit `b` of a sprite row byte is set, counting from the left:
/// the most significant bit is drawn at the leftmost of the 8 columns.
pub open spec fn sprite_bit(byte: u8, b: int) -> bool {
    (byte >> ((7 - b) as u8)) & 1u8 == 1u8
}

/// One sprite bit XOR-blitted into a grid-and-collision pair: a set sprite
/// bit toggles the target cell and records a collision when the cell was
/// previously lit; a clear bit changes nothing.
pub open spec fn draw_bit(g: (Seq<bool>, bool), x: int, y: int, r: int, byte: u8, b: int) -> (
    Seq<bool>,
    bool,
) {
    if sprite_bit(byte, b) {
        let c = cell_idx(x, y, r, b);
        (g.0.update(c, !g.0[c]), g.1 || g.0[c])
    } else {
        g
    }
}

/// The first `nbits` bits of sprite row `r`, applied left to right.
pub open spec fn draw_row(
    g: (Seq<bool>, bool),
    x: int,
    y: int,
    r: int,
    byte: u8,
    nbits: int,
) -> (Seq<bool>, bool)
    decreases nbits,
{
    if nbits <= 0 {
        g
    } else {
        draw_bit(draw_row(g, x, y, r, byte, nbits - 1), x, y, r, byte, nbits - 1)
    }
}

/// The first `nrows` rows of a sprite, applied top to bottom.
pub open spec fn draw_rows(g: (Seq<bool>, bool), x: int, y: int, rows: Seq<u8>, nrows: int) -> (
    Seq<bool>,
    bool,
)
    decreases nrows,
{
    if nrows <= 0 {
        g
    } else {
        draw_row(draw_rows(g, x, y, rows, nrows - 1), x, y, nrows - 1, rows[nrows - 1], 8)
    }
}

/// The full effect of drawing the sprite `rows` at `(x, y)` on `grid`: the
/// new grid, and whether any cell transitioned from lit to unlit anywhere
/// during the draw.
pub open spec fn spec_draw(grid: Seq<bool>, x: int, y: int, rows: Seq<u8>) -> (Seq<bool>, bool) {
    draw_rows((grid, false), x, y, rows, rows.len() as int)
}

/// Two different offsets below the divisor land on different residues when
/// added to the same base.
proof fn lemma_offset_mod_distinct(x: int, b1: int, b2: int, m: int)
    requires
        0 <= b1 < b2 < m,
    ensures
        (x + b1) % m != (x + b2) % m,
{
    lemma_add_mod_noop(x, b1, m);
    lemma_add_mod_noop(x, b2, m);
    lemma_small_mod(b1 as nat, m as nat);
    lemma_small_mod(b2 as nat, m as nat);
    let q = x % m;
    if q + b1 < m {
        lemma_small_mod((q + b1) as nat, m as nat);
    } else {
        lemma_mod_sub_multiples_vanish(q + b1, m);
        lemma_small_mod((q + b1 - m) as nat, m as nat);
    }
    if q + b2 < m {
        lemma_small_mod((q + b2) as nat, m as nat);
    } else {
        lemma_mod_sub_multiples_vanish(q + b2, m);
        lemma_small_mod((q + b2 - m) as nat, m as nat);
    }
}

/// Law: drawing the same single-byte sprite at the same position twice,
/// where the first draw reports no collision, restores the display to
/// exactly its previous contents, and the second draw reports a collision
/// exactly when the sprite has any pixel set.
pub proof fn lemma_draw_twice_restores(grid: Seq<bool>, x: int, y: int, rows: Seq<u8>)
    requires
        grid.len() == DISPLAY_CELLS,
        rows.len() == 1,
        !spec_draw(grid, x, y, rows).1,
    ensures
        spec_draw(spec_draw(grid, x, y, rows).0, x, y, rows).0 == grid,
        spec_draw(spec_draw(grid, x, y, rows).0, x, y, rows).1 == (rows[0] != 0),
{
    let byte = rows[0];
    assert forall|i1: int, i2: int| 0 <= i1 < i2 < 8 implies cell_idx(x, y, 0, i1) != cell_idx(
        x,
        y,
        0,
        i2,
    ) by {
        lemma_offset_mod_distinct(x, i1, i2, DISPLAY_W as int);
    }
    let b0 = (grid, false);
    let b1 = draw_bit(b0, x, y, 0, byte, 0);
    let b2 = draw_bit(b1, x, y, 0, byte, 1);
    let b3 = draw_bit(b2, x, y, 0, byte, 2);
    let b4 = draw_bit(b3, x, y, 0, byte, 3);
    let b5 = draw_bit(b4, x, y, 0, byte, 4);
    let b6 = draw_bit(b5, x, y, 0, byte, 5);
    let b7 = draw_bit(b6, x, y, 0, byte, 6);
    let b8 = draw_bit(b7, x, y, 0, byte, 7);
    assert(draw_row(b0, x, y, 0, byte, 0) == b0);
    assert(draw_row(b0, x, y, 0, byte, 1) == b1);
    assert(draw_row(b0, x, y, 0, byte, 2) == b2);
    assert(draw_row(b0, x, y, 0, byte, 3) == b3);
    assert(draw_row(b0, x, y, 0, byte, 4) == b4);
    assert(draw_row(b0, x, y, 0, byte, 5) == b5);
    assert(draw_row(b0, x, y, 0, byte, 6) == b6);
    assert(draw_row(b0, x, y, 0, byte, 7) == b7);
    assert(draw_row(b0, x, y, 0, byte, 8) == b8);
    assert(draw_rows(b0, x, y, rows, 0) == b0);
    assert(spec_draw(grid, x, y, rows) == b8);
    let c0 = (b8.0, false);
    let c1 = draw_bit(c0, x, y, 0, byte, 0);
    let c2 = draw_bit(c1, x, y, 0, byte, 1);
    let c3 = draw_bit(c2, x, y, 0, byte, 2);
    let c4 = draw_bit(c3, x, y, 0, byte, 3);
    let c5 = draw_bit(c4, x, y, 0, byte, 4);
    let c6 = draw_bit(c5, x, y, 0, byte, 5);
    let c7 = draw_bit(c6, x, y, 0, byte, 6);
    let c8 = draw_bit(c7, x, y, 0, byte, 7);
    assert(draw_row(c0, x, y, 0, byte, 0) == c0);
    assert(draw_row(c0, x, y, 0, byte, 1) == c1);
    assert(draw_row(c0, x, y, 0, byte, 2) == c2);
    assert(draw_row(c0, x, y, 0, byte, 3) == c3);
    assert(draw_row(c0, x, y, 0, byte, 4) == c4);
    assert(draw_row(c0, x, y, 0, byte, 5) == c5);
    assert(draw_row(c0, x, y, 0, byte, 6) == c6);
    assert(draw_row(c0, x, y, 0, byte, 7) == c7);
    assert(draw_row(c0, x, y, 0, byte, 8) == c8);
    assert(draw_rows(c0, x, y, rows, 0) == c0);
    assert(spec_draw(b8.0, x, y, rows) == c8);
    assert(c8.0 =~= grid);
    assert((byte == 0) <==> (!((byte >> 7u8) & 1u8 == 1u8) && !((byte >> 6u8) & 1u8 == 1u8) && !((
    byte >> 5u8) & 1u8 == 1u8) && !((byte >> 4u8) & 1u8 == 1u8) && !((byte >> 3u8) & 1u8 == 1u8)
        && !((byte >> 2u8) & 1u8 == 1u8) && !((byte >> 1u8) & 1u8 == 1u8) && !((byte >> 0u8) & 1u8
        == 1u8))) by (bit_vector);
    assert(c8.1 == (byte != 0));
}

/// A struct representing the CHIP-8 display.
pub struct ChipDisplay {
    /// A boolean vector representing the 64x32 pixel grid.
    display: Vec<bool>,
    /// Whether the display has changed since the flag was last consumed.
    modified: bool,
}

impl ChipDisplay {
    /// The pixel grid, as a sequence of 2048 cells addressed `y * 64 + x`.
    pub closed spec fn grid(&self) -> Seq<bool> {
        self.display@
    }

    /// Whether the display has changed since the flag was last consumed.
    pub closed spec fn is_modified(&self) -> bool {
        self.modified
    }

    /// Well-formedness: the grid holds exactly 2048 cells.
    pub open spec fn wf(&self) -> bool {
        self.grid().len() == DISPLAY_CELLS
    }

    /// Initialize the display: every cell unlit, the modification flag clear.
    pub fn init() -> (d: Self)
        ensures
            d.wf(),
            d.grid() =~= Seq::new(DISPLAY_CELLS as nat, |c: int| false),
            !d.is_modified(),
    {
        ChipDisplay { display: vec![false; 2048], modified: false }
    }

    /// Consume the modification flag: report whether the display changed
    /// since the last call, and reset the flag, so that each change is
    /// observed at most once.
    pub fn mod_check(&mut self) -> (changed: bool)
        requires
            old(self).wf(),
        ensures
            final(self).wf(),
            changed == old(self).is_modified(),
            !final(self).is_modified(),
            final(self).grid() == old(self).grid(),
    {
        let ret = self.modified;
        self.modified = false;
        ret
    }

    /// Get an immutable copy of the current pixel grid.
    pub fn get_display(&self) -> (v: Vec<bool>)
        ensures
            v@ == self.grid(),
    {
        self.display.clone()
    }

    /// Draw a sprite into the display buffer by XOR blitting, wrapping each
    /// pixel's coordinates around the display edges.  Returns true exactly
    /// when a previously lit pixel was erased by the draw (the collision
    /// signal), and marks the display modified regardless.
    pub fn draw_sprite(&mut self, x_loc: u16, y_loc: u16, sprite: Vec<u8>) -> (collision: bool)
        requires
            old(self).wf(),
        ensures
            final(self).wf(),
            ({
                let d = spec_draw(old(self).grid(), x_loc as int, y_loc as int, sprite@);
                final(self).grid() == d.0 && collision == d.1
            }),
            final(self).is_modified(),
    {
        let ghost gx = x_loc as int;
        let ghost gy = y_loc as int;
        let ghost grid0 = self.display@;
        let row_count = sprite.len();
        let xb: usize = x_loc as usize % DISPLAY_W;
        let mut ret = false;
        let mut row: usize = 0;
        while row < row_count
            invariant
                self.display@.len() == DISPLAY_CELLS,
                gx == x_loc as int,
                gy == y_loc as int,
                grid0 == old(self).grid(),
                xb == gx % (DISPLAY_W as int),
                row <= row_count == sprite@.len(),
                self.modified == old(self).modified,
                (self.display@, ret) == draw_rows((grid0, false), gx, gy, sprite@, row as int),
            decreases row_count - row,
        {
            let byte = sprite[row];
            let yr: usize = (y_loc as usize % DISPLAY_H + row % DISPLAY_H) % DISPLAY_H;
            proof {
                lemma_add_mod_noop(gy, row as int, DISPLAY_H as int);
                assert(yr == (gy + row) % (DISPLAY_H as int));
            }
            let mut b: usize = 0;
            let ghost gin = (self.display@, ret);
            while b < 8
                invariant
                    self.display@.len() == DISPLAY_CELLS,
                    gx == x_loc as int,
                    xb == gx % (DISPLAY_W as int),
                    row < sprite@.len(),
                    byte == sprite@[row as int],
                    yr == (gy + row) % (DISPLAY_H as int),
                    yr < DISPLAY_H,
                    b <= 8,
                    self.modified == old(self).modified,
                    (self.display@, ret) == draw_row(gin, gx, gy, row as int, byte, b as int),
                decreases 8 - b,
            {
                let pos: usize = yr * DISPLAY_W + (xb + b) % DISPLAY_W;
                proof {
                    lemma_add_mod_noop(gx, b as int, DISPLAY_W as int);
                    assert(pos == cell_idx(gx, gy, row as int, b as int));
                }
                let sh: u8 = (7 - b) as u8;
                if (byte >> sh) & 1 == 1 {
                    let init_val = self.display[pos];
                    if init_val {
                        ret = true;
                    }
                    self.display[pos] = !init_val;
                }
                b = b + 1;
            }
            row = row + 1;
        }
        self.modified = true;
        ret
    }

    /// Clear the display: every cell unlit, and the display marked modified.
    pub fn clear_display(&mut self)
        requires
            old(self).wf(),
        ensures
            final(self).wf(),
            final(self).grid() =~= Seq::new(DISPLAY_CELLS as nat, |c: int| false),
            final(self).is_modified(),
    {
        let mut y: usize = 0;
        while y < DISPLAY_H
            invariant
                self.display@.len() == DISPLAY_CELLS,
                y <= DISPLAY_H,
                forall|c: int| 0 <= c < y * DISPLAY_W ==> self.display@[c] == false,
            decreases DISPLAY_H - y,
        {
            let mut x: usize = 0;
            while x < DISPLAY_W
                invariant
                    self.display@.len() == DISPLAY_CELLS,
                    y < DISPLAY_H,
                    x <= DISPLAY_W,
                    forall|c: int| 0 <= c < y * DISPLAY_W + x ==> self.display@[c] == false,
                decreases DISPLAY_W - x,
            {
                let pos: usize = y * DISPLAY_W + x;
                self.display[pos] = false;
                x = x + 1;
            }
            y = y + 1;
        }
        self.modified = true;
    }
}

} // verus!
