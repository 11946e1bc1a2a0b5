//! 3D-to-2D projection of a rotated vertex.
//!
//! Two modes: *perspective* divides by the camera-offset depth
//! `z + D`, *orthographic-divide* divides by `z` itself. Either way,
//! if the chosen denominator is exactly zero, a small epsilon
//! ([`EPS_DENOM`], `0.0001` in fixed point) is substituted; the guard
//! applies to the offset-adjusted depth, not to raw `z`, so a vertex
//! at the object's exact mid-depth projects through its real
//! denominator in perspective mode. The projected coordinates carry
//! independent horizontal and vertical stretch ratios to correct for
//! non-square character cells.

use vstd::prelude::*;
use vstd::math::abs;
use crate::fixed::{div_fixed, div_trunc};
use crate::rotation::NORM_CAP;

verus! {

/// Largest stretch ratio accepted: `50.0` in fixed point.
pub const RATIO_CAP: i64 = 50_000_000;

/// Largest camera distance accepted: `100.0` in fixed point.
pub const DIST_CAP: i64 = 100_000_000;

/// Epsilon substituted for an exactly-zero denominator: `0.0001`.
pub const EPS_DENOM: i64 = 100;

/// Largest magnitude a projected coordinate can reach:
/// `NORM_CAP * RATIO_CAP` over a denominator of magnitude at least one.
pub const PROJ_CAP: i64 = 100_000_000_000_000;

/// Projection mode, selected at construction.
#[derive(Clone, Copy, PartialEq, Eq, Structural, Debug)]
pub enum Projection {
    /// Divide by `z + camera_distance`.
    Perspective { camera_distance: i64 },
    /// Divide by `z` alone; only sensible for geometry at positive depth.
    Orthographic,
}

/// The denominator before the epsilon guard.
pub open spec fn denom_raw(proj: Projection, z: int) -> int {
    match proj {
        Projection::Perspective { camera_distance } => z + camera_distance,
        Projection::Orthographic => z,
    }
}

/// The guarded denominator: never zero.
pub open spec fn denom_spec(proj: Projection, z: int) -> int {
    if denom_raw(proj, z) == 0 {
        EPS_DENOM as int
    } else {
        denom_raw(proj, z)
    }
}

/// A projection configuration the pipeline accepts: a perspective
/// camera sits at a positive, bounded distance.
pub open spec fn proj_valid(proj: Projection) -> bool {
    match proj {
        Projection::Perspective { camera_distance } => 0 < camera_distance <= DIST_CAP,
        Projection::Orthographic => true,
    }
}

/// What projection returns: each axis is the coordinate times its
/// stretch ratio, divided (truncating) by the guarded denominator.
pub open spec fn project_spec(
    x: int,
    y: int,
    z: int,
    proj: Projection,
    x_ratio: int,
    y_ratio: int,
) -> (int, int) {
    (
        div_trunc(x * x_ratio, denom_spec(proj, z)),
        div_trunc(y * y_ratio, denom_spec(proj, z)),
    )
}

/// Project one vertex to screen space (before centering).
pub fn project_point(
    x: i64,
    y: i64,
    z: i64,
    proj: Projection,
    x_ratio: i64,
    y_ratio: i64,
) -> (r: (i64, i64))
    requires
        -NORM_CAP <= x <= NORM_CAP,
        -NORM_CAP <= y <= NORM_CAP,
        -NORM_CAP <= z <= NORM_CAP,
        0 < x_ratio <= RATIO_CAP,
        0 < y_ratio <= RATIO_CAP,
        proj_valid(proj),
    ensures
        (r.0 as int, r.1 as int) == project_spec(
            x as int,
            y as int,
            z as int,
            proj,
            x_ratio as int,
            y_ratio as int,
        ),
        -PROJ_CAP <= r.0 <= PROJ_CAP,
        -PROJ_CAP <= r.1 <= PROJ_CAP,
{
    let d_raw: i64 = match proj {
        Projection::Perspective { camera_distance } => z + camera_distance,
        Projection::Orthographic => z,
    };
    let d: i64 = if d_raw == 0 {
        EPS_DENOM
    } else {
        d_raw
    };
    proof {
        assert(-PROJ_CAP <= x * x_ratio <= PROJ_CAP && -PROJ_CAP <= y * y_ratio <= PROJ_CAP)
            by (nonlinear_arith)
            requires
                -NORM_CAP <= x <= NORM_CAP,
                -NORM_CAP <= y <= NORM_CAP,
                0 < x_ratio <= RATIO_CAP,
                0 < y_ratio <= RATIO_CAP,
                NORM_CAP == 2_000_000i64,
                RATIO_CAP == 50_000_000i64,
                PROJ_CAP == 100_000_000_000_000i64,
        ;
        assert(abs(x * x_ratio) <= PROJ_CAP && abs(y * y_ratio) <= PROJ_CAP);
    }
    let px = div_fixed(x * x_ratio, d);
    let py = div_fixed(y * y_ratio, d);
    (px, py)
}

/// Projection is deterministic: two results of projecting the same
/// vertex under the same mode and ratios are identical.
pub proof fn lemma_projection_deterministic(
    x: int,
    y: int,
    z: int,
    proj: Projection,
    x_ratio: int,
    y_ratio: int,
    r1: (int, int),
    r2: (int, int),
)
    requires
        r1 == project_spec(x, y, z, proj, x_ratio, y_ratio),
        r2 == project_spec(x, y, z, proj, x_ratio, y_ratio),
    ensures
        r1 == r2,
{
}

} // verus!
