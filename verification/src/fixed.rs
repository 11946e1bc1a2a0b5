//! Fixed-point representation and truncating division.
//!
//! Object-space coordinates, trigonometric values, stretch ratios and
//! camera distances are all signed 64-bit integers scaled by [`SCALE`]:
//! the value `1.0` is stored as `SCALE` units.

use vstd::prelude::*;
use vstd::arithmetic::div_mod::{
    lemma_div_pos_is_pos, lemma_fundamental_div_mod, lemma_mod_bound,
};
use vstd::arithmetic::mul::lemma_mul_nonnegative;
use vstd::math::abs;

verus! {

/// Fixed-point units per one unit of object space.
pub const SCALE: i64 = 1_000_000;

/// Division truncating toward zero, as Rust's `/` computes it on
/// signed integers (spec-level `/` is Euclidean, which differs on
/// negative operands).
pub open spec fn div_trunc(x: int, d: int) -> int
    recommends
        d != 0,
{
    if x == 0 {
        0
    } else if x > 0 && d > 0 {
        x / d
    } else if x < 0 && d < 0 {
        (x * -1) / (d * -1)
    } else if x < 0 {
        ((x * -1) / d) * -1
    } else {
        (x / (d * -1)) * -1
    }
}

/// Truncating division of fixed-point values.
pub fn div_fixed(x: i64, d: i64) -> (r: i64)
    requires
        d != 0,
        x != i64::MIN,
    ensures
        r == div_trunc(x as int, d as int),
        -abs(x as int) <= r <= abs(x as int),
{
    proof {
        lemma_div_trunc_abs(x as int, d as int);
    }
    let q = x.checked_div(d);
    assert(q.is_some());
    q.unwrap()
}

/// A truncated quotient is the quotient of the magnitudes, carrying
/// the sign of the exact quotient.
pub proof fn lemma_div_trunc_abs(x: int, d: int)
    requires
        d != 0,
    ensures
        abs(div_trunc(x, d)) == abs(x) / abs(d),
        abs(div_trunc(x, d)) <= abs(x),
        (abs(x) / abs(d)) * abs(d) <= abs(x),
{
    let m = abs(x) as int;
    let n = abs(d) as int;
    lemma_div_pos_is_pos(m, n);
    lemma_fundamental_div_mod(m, n);
    lemma_mod_bound(m, n);
    lemma_mul_nonnegative(m / n, n);
    assert((m / n) * n <= m);
    assert(m / n <= m) by (nonlinear_arith)
        requires
            m >= 0,
            n >= 1,
            m / n >= 0,
            (m / n) * n <= m,
    ;
    if x == 0 {
        assert(m / n == 0) by (nonlinear_arith)
            requires
                m == 0,
                n >= 1,
        ;
        assert(abs(div_trunc(x, d)) == m / n);
    } else if x > 0 && d > 0 {
        assert(abs(div_trunc(x, d)) == m / n);
    } else if x < 0 && d < 0 {
        assert(abs(div_trunc(x, d)) == m / n);
    } else if x < 0 {
        assert(abs(div_trunc(x, d)) == m / n);
    } else {
        assert(abs(div_trunc(x, d)) == m / n);
    }
}

/// Scaling a truncated quotient back up never exceeds the dividend in
/// square: the basis for norm preservation under rotation.
pub proof fn lemma_div_trunc_sq(x: int, s: int)
    requires
        s >= 1,
    ensures
        div_trunc(x, s) * div_trunc(x, s) * (s * s) <= x * x,
{
    lemma_div_trunc_abs(x, s);
    let q = abs(div_trunc(x, s)) as int;
    let m = abs(x) as int;
    assert(q * s <= m);
    assert(q * q * (s * s) <= m * m) by (nonlinear_arith)
        requires
            q >= 0,
            s >= 1,
            m >= 0,
            q * s <= m,
    ;
    assert(div_trunc(x, s) * div_trunc(x, s) == q * q) by (nonlinear_arith)
        requires
            q == abs(div_trunc(x, s)),
    ;
    assert(x * x == m * m) by (nonlinear_arith)
        requires
            m == abs(x),
    ;
}

} // verus!
