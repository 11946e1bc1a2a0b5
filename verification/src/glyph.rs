//! Depth-to-glyph policy.
//!
//! The real line of depths is partitioned into four ordered bands by
//! three monotonic thresholds; the nearest band paints the densest
//! glyph `#`, then `@` and `*`, and the farthest band the sparsest
//! `.`. Edges carry a fixed neutral glyph instead.

use vstd::prelude::*;

verus! {

/// Depths below this (in fixed point, `-0.5`) are the nearest band.
pub const NEAR_THRESHOLD: i64 = -500_000;

/// Second band boundary: the object's mid-depth.
pub const MID_THRESHOLD: i64 = 0;

/// Depths at or beyond this (`0.5`) are the farthest band.
pub const FAR_THRESHOLD: i64 = 500_000;

/// The neutral glyph every edge cell is painted with.
pub const EDGE_GLYPH: char = '*';

/// Band index of a depth: 0 nearest to 3 farthest.
pub open spec fn depth_band(z: int) -> int {
    if z < NEAR_THRESHOLD {
        0
    } else if z < MID_THRESHOLD {
        1
    } else if z < FAR_THRESHOLD {
        2
    } else {
        3
    }
}

/// The glyph of a band, densest first.
pub open spec fn band_glyph(band: int) -> char {
    if band == 0 {
        '#'
    } else if band == 1 {
        '@'
    } else if band == 2 {
        '*'
    } else {
        '.'
    }
}

/// Select the glyph for a point at depth `z`.
pub fn glyph_for_depth(z: i64) -> (c: char)
    ensures
        c == band_glyph(depth_band(z as int)),
{
    if z < NEAR_THRESHOLD {
        '#'
    } else if z < MID_THRESHOLD {
        '@'
    } else if z < FAR_THRESHOLD {
        '*'
    } else {
        '.'
    }
}

/// The four bands partition the depth line: every depth falls in
/// exactly one band, with no gaps and no overlaps.
pub proof fn lemma_depth_band_partition(z: int)
    ensures
        0 <= depth_band(z) <= 3,
        depth_band(z) == 0 <==> z < NEAR_THRESHOLD,
        depth_band(z) == 1 <==> NEAR_THRESHOLD <= z < MID_THRESHOLD,
        depth_band(z) == 2 <==> MID_THRESHOLD <= z < FAR_THRESHOLD,
        depth_band(z) == 3 <==> FAR_THRESHOLD <= z,
{
}

/// Moving away from the camera never selects a denser glyph: the band
/// index is monotone in depth.
pub proof fn lemma_depth_band_monotone(z1: int, z2: int)
    requires
        z1 <= z2,
    ensures
        depth_band(z1) <= depth_band(z2),
{
}

} // verus!
