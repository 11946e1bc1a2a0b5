//! Integer line rasterization between two screen cells.
//!
//! Bresenham stepping with error accumulation: starting from the first
//! endpoint, each iteration advances one cell toward the target along
//! x, y, or both, guided by the accumulated error term. The loop stops
//! when the current cell reaches the target — or, as a safety bound,
//! if it ever overshot the target in either axis; the proof shows the
//! overshoot exit is in fact unreachable, so every line ends exactly
//! on its target cell after `max(|dx|, |dy|)` steps.

use vstd::prelude::*;
use vstd::math::{max, min};

verus! {

/// Largest cell coordinate magnitude accepted, comfortably beyond any
/// projected coordinate divided down to cells.
pub const CELL_LIMIT: i64 = 200_000_000;

/// Distance between two coordinates.
pub open spec fn dist(a: int, b: int) -> int {
    if b >= a {
        b - a
    } else {
        a - b
    }
}

/// Every cell a line may paint lies in the bounding box of its
/// endpoints.
pub open spec fn in_box(c: (i64, i64), x1: int, y1: int, x2: int, y2: int) -> bool {
    &&& min(x1, x2) <= c.0 <= max(x1, x2)
    &&& min(y1, y2) <= c.1 <= max(y1, y2)
}

/// What a rasterized line segment from `(ax, ay)` to `(bx, by)` looks
/// like: it starts on the first endpoint, ends on the target, paints
/// exactly `max(|dx|, |dy|) + 1` cells, visits the target exactly
/// once, and never leaves the endpoints' bounding box.
pub open spec fn is_line(seg: Seq<(i64, i64)>, ax: int, ay: int, bx: int, by: int) -> bool {
    &&& seg.len() == max(dist(ax, bx), dist(ay, by)) + 1
    &&& seg[0].0 == ax && seg[0].1 == ay
    &&& seg[seg.len() - 1].0 == bx && seg[seg.len() - 1].1 == by
    &&& forall|k: int| 0 <= k < seg.len() - 1 ==> !((#[trigger] seg[k]).0 == bx && seg[k].1 == by)
    &&& forall|k: int|
        0 <= k < seg.len() ==> min(ax, bx) <= (#[trigger] seg[k]).0 <= max(ax, bx) && min(ay, by)
            <= seg[k].1 <= max(ay, by)
}

/// Rasterize the line from `(x1, y1)` to `(x2, y2)`.
///
/// The result paints first the start cell, then one cell per step,
/// ending on the target cell, which no earlier cell equals: the line
/// visits its target exactly once and takes exactly
/// `max(|x2 - x1|, |y2 - y1|) + 1` cells, equal endpoints included.
pub fn line_cells(x1: i64, y1: i64, x2: i64, y2: i64) -> (cells: Vec<(i64, i64)>)
    requires
        -CELL_LIMIT <= x1 <= CELL_LIMIT,
        -CELL_LIMIT <= y1 <= CELL_LIMIT,
        -CELL_LIMIT <= x2 <= CELL_LIMIT,
        -CELL_LIMIT <= y2 <= CELL_LIMIT,
    ensures
        is_line(cells@, x1 as int, y1 as int, x2 as int, y2 as int),
        cells@.len() == max(dist(x1 as int, x2 as int), dist(y1 as int, y2 as int)) + 1,
        cells@[0] == (x1, y1),
        cells@[cells@.len() - 1] == (x2, y2),
        forall|k: int| 0 <= k < cells@.len() - 1 ==> cells@[k] != (x2, y2),
        forall|k: int|
            0 <= k < cells@.len() ==> in_box(
                cells@[k],
                x1 as int,
                y1 as int,
                x2 as int,
                y2 as int,
            ),
{
    let dx: i64 = if x2 >= x1 {
        x2 - x1
    } else {
        x1 - x2
    };
    let dy: i64 = if y2 >= y1 {
        y2 - y1
    } else {
        y1 - y2
    };
    let sx: i64 = if x1 < x2 {
        1
    } else {
        -1
    };
    let sy: i64 = if y1 < y2 {
        1
    } else {
        -1
    };
    let mut err: i64 = dx - dy;
    let mut cx: i64 = x1;
    let mut cy: i64 = y1;
    let mut cells: Vec<(i64, i64)> = Vec::new();
    cells.push((cx, cy));
    let ghost mut i: int = 0;
    let ghost mut j: int = 0;
    loop
        invariant
            -CELL_LIMIT <= x1 <= CELL_LIMIT,
            -CELL_LIMIT <= y1 <= CELL_LIMIT,
            -CELL_LIMIT <= x2 <= CELL_LIMIT,
            -CELL_LIMIT <= y2 <= CELL_LIMIT,
            dx == dist(x1 as int, x2 as int),
            dy == dist(y1 as int, y2 as int),
            sx == 1i64 <==> x1 < x2,
            sx == 1 || sx == -1,
            sy == 1i64 <==> y1 < y2,
            sy == 1 || sy == -1,
            0 <= i <= dx,
            0 <= j <= dy,
            sx == 1 ==> cx == x1 + i,
            sx == -1 ==> cx == x1 - i,
            sy == 1 ==> cy == y1 + j,
            sy == -1 ==> cy == y1 - j,
            err == dx - dy - i * dy + j * dx,
            dx > dy ==> 2 * err >= dx - 2 * dy,
            dx == dy ==> err == 0 && i == j,
            dx < dy ==> 2 * err <= 2 * dx - dy,
            cells@.len() == (if dx >= dy {
                i
            } else {
                j
            }) + 1,
            cells@[0] == (x1, y1),
            cells@[cells@.len() - 1] == (cx, cy),
            forall|k: int| 0 <= k < cells@.len() - 1 ==> cells@[k] != (x2, y2),
            forall|k: int|
                0 <= k < cells@.len() ==> in_box(
                    cells@[k],
                    x1 as int,
                    y1 as int,
                    x2 as int,
                    y2 as int,
                ),
        ensures
            cx == x2 && cy == y2,
            i == dx && j == dy,
            cells@.len() == (if dx >= dy {
                i
            } else {
                j
            }) + 1,
            cells@[0] == (x1, y1),
            cells@[cells@.len() - 1] == (cx, cy),
            forall|k: int| 0 <= k < cells@.len() - 1 ==> cells@[k] != (x2, y2),
            forall|k: int|
                0 <= k < cells@.len() ==> in_box(
                    cells@[k],
                    x1 as int,
                    y1 as int,
                    x2 as int,
                    y2 as int,
                ),
        decreases dx - i + dy - j,
    {
        if (cx == x2 && cy == y2) || (sx == 1 && cx > x2) || (sx == -1 && cx < x2) || (sy == 1
            && cy > y2) || (sy == -1 && cy < y2) {
            proof {
                // the four overshoot arms contradict 0 <= i <= dx and
                // 0 <= j <= dy, so this exit is the target cell
                assert(cx == x2 && cy == y2);
            }
            break;
        }
        proof {
            assert(-200_000_000_000_000_000 <= err <= 200_000_000_000_000_000)
                by (nonlinear_arith)
                requires
                    err == dx - dy - i * dy + j * dx,
                    0 <= i <= dx,
                    0 <= j <= dy,
                    0 <= dx <= 400_000_000,
                    0 <= dy <= 400_000_000,
            ;
            // on the majority axis a step is always taken; reaching the
            // far side of that axis early would mean the other axis had
            // already arrived, i.e. the target itself
            if dx >= dy && i == dx {
                assert(j >= dy) by (nonlinear_arith)
                    requires
                        err == dx - dy - i * dy + j * dx,
                        i == dx,
                        dx > dy ==> 2 * err >= dx - 2 * dy,
                        dx == dy ==> err == 0 && i == j,
                        dx >= dy >= 0,
                        0 <= j,
                ;
                assert(false);
            }
            if dx < dy && j == dy {
                assert(i >= dx) by (nonlinear_arith)
                    requires
                        err == dx - dy - i * dy + j * dx,
                        j == dy,
                        2 * err <= 2 * dx - dy,
                        0 <= dx < dy,
                        0 <= i,
                ;
                assert(false);
            }
        }
        let ghost i0 = i;
        let ghost j0 = j;
        let ghost err0 = err as int;
        let e2: i64 = 2 * err;
        proof {
            // the majority axis always fires
            if dx > dy {
                assert(2 * err0 > -dy);
            }
            if dx == dy {
                assert(dx >= 1);
                assert(2 * err0 > -dy && 2 * err0 < dx);
            }
            if dx < dy {
                assert(2 * err0 < dx);
            }
            // a minority-axis step never fires once that axis is done
            if 2 * err0 > -dy && dx < dy && i0 == dx {
                assert(2 * (dx - dy - i0 * dy + j0 * dx) <= -dy) by (nonlinear_arith)
                    requires
                        i0 == dx,
                        0 <= j0 < dy,
                        0 <= dx < dy,
                ;
                assert(false);
            }
            if 2 * err0 < dx && dx >= dy && j0 == dy {
                assert(2 * (dx - dy - i0 * dy + j0 * dx) >= dx) by (nonlinear_arith)
                    requires
                        j0 == dy,
                        0 <= i0 < dx,
                        0 <= dy <= dx,
                ;
                assert(false);
            }
        }
        if e2 > -dy {
            err = err - dy;
            cx = cx + sx;
            proof {
                i = i + 1;
                assert(i * dy == i0 * dy + dy) by (nonlinear_arith)
                    requires
                        i == i0 + 1,
                ;
            }
        }
        if e2 < dx {
            err = err + dx;
            cy = cy + sy;
            proof {
                j = j + 1;
                assert(j * dx == j0 * dx + dx) by (nonlinear_arith)
                    requires
                        j == j0 + 1,
                ;
            }
        }
        cells.push((cx, cy));
        proof {
            // error-bound invariant is restored whichever steps fired
            if dx > dy {
                assert(2 * err >= dx - 2 * dy);
            }
        }
    }
    proof {
        assert(cells@.len() == max(dist(x1 as int, x2 as int), dist(y1 as int, y2 as int)) + 1);
    }
    cells
}

} // verus!
