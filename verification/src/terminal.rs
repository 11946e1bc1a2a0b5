//! Screen geometry: mapping projected coordinates to device cells.
//!
//! The terminal is a grid of `cols × rows` character cells. A
//! projected fixed-point coordinate is centered by adding half the
//! grid size and floored down to a cell index. Cells outside the grid
//! are clipped away before anything reaches the display sink: the
//! sink receives only in-range cell coordinates.

use vstd::prelude::*;
use crate::fixed::SCALE;
use crate::projection::PROJ_CAP;
use crate::raster::CELL_LIMIT;

verus! {

/// One paint request in unclipped cell space.
#[derive(Clone, Copy, PartialEq, Eq, Structural, Debug)]
pub struct DrawOp {
    pub x: i64,
    pub y: i64,
    pub glyph: char,
}

/// One paint request known to lie on the screen.
#[derive(Clone, Copy, PartialEq, Eq, Structural, Debug)]
pub struct ScreenOp {
    pub x: u16,
    pub y: u16,
    pub glyph: char,
}

/// The character grid the cube is drawn into.
#[derive(Clone, Copy, PartialEq, Eq, Structural, Debug)]
pub struct Terminal {
    pub cols: u16,
    pub rows: u16,
}

impl Terminal {
    /// A terminal of the given grid size.
    pub fn new(cols: u16, rows: u16) -> (t: Terminal)
        ensures
            t.cols == cols,
            t.rows == rows,
    {
        Terminal { cols, rows }
    }

    /// The cell index of a projected x coordinate: centered on the
    /// grid, floored to a cell.
    pub open spec fn cell_x_spec(self, x: int) -> int {
        (x + (self.cols as int / 2) * (SCALE as int)) / (SCALE as int)
    }

    /// The cell index of a projected y coordinate.
    pub open spec fn cell_y_spec(self, y: int) -> int {
        (y + (self.rows as int / 2) * (SCALE as int)) / (SCALE as int)
    }

    /// Map a projected point to its (possibly off-screen) cell.
    pub fn cell(&self, x: i64, y: i64) -> (c: (i64, i64))
        requires
            -PROJ_CAP <= x <= PROJ_CAP,
            -PROJ_CAP <= y <= PROJ_CAP,
        ensures
            c.0 == self.cell_x_spec(x as int),
            c.1 == self.cell_y_spec(y as int),
            -CELL_LIMIT <= c.0 <= CELL_LIMIT,
            -CELL_LIMIT <= c.1 <= CELL_LIMIT,
    {
        let half_x: i64 = (self.cols / 2) as i64;
        let half_y: i64 = (self.rows / 2) as i64;
        let vx: i64 = x + half_x * SCALE;
        let vy: i64 = y + half_y * SCALE;
        proof {
            lemma_centered_div_bounds(vx as int);
            lemma_centered_div_bounds(vy as int);
        }
        let cx = vx.checked_div_euclid(SCALE);
        let cy = vy.checked_div_euclid(SCALE);
        assert(cx.is_some() && cy.is_some());
        (cx.unwrap(), cy.unwrap())
    }

    /// Whether an unclipped op lies on this screen.
    pub open spec fn visible(self, op: DrawOp) -> bool {
        &&& 0 <= op.x < self.cols
        &&& 0 <= op.y < self.rows
    }

    /// The on-screen conversion of a visible op.
    pub open spec fn to_screen_spec(self, op: DrawOp) -> ScreenOp {
        ScreenOp { x: op.x as u16, y: op.y as u16, glyph: op.glyph }
    }

    /// The clipped form of a paint list: visible ops, converted, in
    /// their original order.
    pub open spec fn clip_spec(self, ops: Seq<DrawOp>) -> Seq<ScreenOp>
        decreases ops.len(),
    {
        if ops.len() == 0 {
            Seq::empty()
        } else if self.visible(ops.last()) {
            self.clip_spec(ops.drop_last()).push(self.to_screen_spec(ops.last()))
        } else {
            self.clip_spec(ops.drop_last())
        }
    }

    /// Drop every op outside the grid and convert the rest to screen
    /// coordinates, keeping their order.
    pub fn clip(&self, ops: &Vec<DrawOp>) -> (v: Vec<ScreenOp>)
        ensures
            v@ == self.clip_spec(ops@),
    {
        let mut v: Vec<ScreenOp> = Vec::new();
        let mut k: usize = 0;
        while k < ops.len()
            invariant
                k <= ops.len(),
                v@ == self.clip_spec(ops@.subrange(0, k as int)),
            decreases ops.len() - k,
        {
            let op = ops[k];
            if op.x >= 0 && op.x < self.cols as i64 && op.y >= 0 && op.y < self.rows as i64 {
                v.push(ScreenOp { x: op.x as u16, y: op.y as u16, glyph: op.glyph });
            }
            proof {
                let pre = ops@.subrange(0, k as int);
                let post = ops@.subrange(0, k + 1int);
                assert(post.drop_last() =~= pre);
                assert(post.last() == ops@[k as int]);
            }
            k = k + 1;
        }
        proof {
            assert(ops@.subrange(0, ops@.len() as int) =~= ops@);
        }
        v
    }
}

/// Bounds of the centered, floored cell index for any projected
/// coordinate: it stays well within [`CELL_LIMIT`].
proof fn lemma_centered_div_bounds(v: int)
    requires
        -PROJ_CAP <= v <= PROJ_CAP + 33_000 * (SCALE as int),
    ensures
        -CELL_LIMIT <= v / (SCALE as int) <= CELL_LIMIT,
{
    vstd::arithmetic::div_mod::lemma_div_is_ordered(-(PROJ_CAP as int), v, SCALE as int);
    vstd::arithmetic::div_mod::lemma_div_is_ordered(
        v,
        PROJ_CAP as int + 33_000 * (SCALE as int),
        SCALE as int,
    );
}

} // verus!
