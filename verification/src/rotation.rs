//! Right-hand-rule rotation of a coordinate pair about one axis.
//!
//! A rotation about an axis only touches the two coordinates orthogonal
//! to it, replacing the pair `(p, q)` by
//! `((p·c − q·s) / SCALE, (p·s + q·c) / SCALE)`, where `(s, c)` is a
//! fixed-point sine/cosine pair. The pair is *valid* when
//! `s² + c² ≤ SCALE²`, which holds for any truncated scaling of a real
//! sine/cosine pair; validity guarantees the rotation never grows the
//! Euclidean norm of the coordinates.

use vstd::prelude::*;
use crate::fixed::{div_fixed, div_trunc, lemma_div_trunc_sq, SCALE};

verus! {

/// Largest coordinate magnitude the pipeline handles: twice the scale,
/// i.e. `2.0` in object space. The cube's vertices have norm `√3 < 2`.
pub const NORM_CAP: i64 = 2_000_000;

/// First component of the unscaled rotated pair: `p·c − q·s`.
pub open spec fn rot_a(p: int, q: int, s: int, c: int) -> int {
    p * c - q * s
}

/// Second component of the unscaled rotated pair: `p·s + q·c`.
pub open spec fn rot_b(p: int, q: int, s: int, c: int) -> int {
    p * s + q * c
}

/// A fixed-point sine/cosine pair that does not exceed the unit circle.
pub open spec fn trig_pair_valid(s: int, c: int) -> bool {
    s * s + c * c <= SCALE * SCALE
}

/// The rotated pair's squared norm is the product of the squared norms
/// of the input pair and the trigonometric pair.
pub proof fn lemma_rot_norm_identity(p: int, q: int, s: int, c: int)
    ensures
        rot_a(p, q, s, c) * rot_a(p, q, s, c) + rot_b(p, q, s, c) * rot_b(p, q, s, c)
            == (p * p + q * q) * (s * s + c * c),
{
    let u = p * c;
    let v = q * s;
    let w = p * s;
    let t = q * c;
    assert((u - v) * (u - v) == u * u - 2 * (u * v) + v * v) by (nonlinear_arith);
    assert((w + t) * (w + t) == w * w + 2 * (w * t) + t * t) by (nonlinear_arith);
    assert(u * u == (p * p) * (c * c)) by (nonlinear_arith)
        requires
            u == p * c,
    ;
    assert(v * v == (q * q) * (s * s)) by (nonlinear_arith)
        requires
            v == q * s,
    ;
    assert(w * w == (p * p) * (s * s)) by (nonlinear_arith)
        requires
            w == p * s,
    ;
    assert(t * t == (q * q) * (c * c)) by (nonlinear_arith)
        requires
            t == q * c,
    ;
    assert(u * v == w * t) by (nonlinear_arith)
        requires
            u == p * c,
            v == q * s,
            w == p * s,
            t == q * c,
    ;
    assert((p * p) * (c * c) + (q * q) * (s * s) + (p * p) * (s * s) + (q * q) * (c * c)
        == (p * p + q * q) * (s * s + c * c)) by (nonlinear_arith);
}

/// Rotating by an angle and then by its negation is a pure scaling by
/// the trigonometric pair's squared norm: with an exact unit pair
/// (`s² + c² = SCALE²`) the point returns to itself, up to the global
/// fixed-point scale. Composition is stated on the unscaled rotation,
/// where fixed-point arithmetic is exact.
pub proof fn lemma_rotation_inverse(p: int, q: int, s: int, c: int)
    ensures
        rot_a(rot_a(p, q, s, c), rot_b(p, q, s, c), -s, c) == p * (s * s + c * c),
        rot_b(rot_a(p, q, s, c), rot_b(p, q, s, c), -s, c) == q * (s * s + c * c),
{
    let a = p * c - q * s;
    let b = p * s + q * c;
    assert(a * c - b * (-s) == p * (s * s + c * c)) by (nonlinear_arith)
        requires
            a == p * c - q * s,
            b == p * s + q * c,
    ;
    assert(a * (-s) + b * c == q * (s * s + c * c)) by (nonlinear_arith)
        requires
            a == p * c - q * s,
            b == p * s + q * c,
    ;
}

/// With an exact unit pair the inverse rotation recovers the point
/// itself, scaled by `SCALE²` — the unscaled composition loses
/// nothing, so all error in a fixed-point round trip comes from the
/// two scale-downs and the truncated trig values alone.
pub proof fn lemma_rotation_inverse_unit_pair(p: int, q: int, s: int, c: int)
    requires
        s * s + c * c == SCALE * SCALE,
    ensures
        rot_a(rot_a(p, q, s, c), rot_b(p, q, s, c), -s, c) == p * ((SCALE * SCALE) as int),
        rot_b(rot_a(p, q, s, c), rot_b(p, q, s, c), -s, c) == q * ((SCALE * SCALE) as int),
{
    lemma_rotation_inverse(p, q, s, c);
}

/// Rotate the pair `(p, q)` by the trig pair `(s, c)`, truncating each
/// coordinate back to fixed point. The squared norm never grows.
pub fn rotate_pair(p: i64, q: i64, s: i64, c: i64) -> (r: (i64, i64))
    requires
        p * p + q * q <= NORM_CAP * NORM_CAP,
        trig_pair_valid(s as int, c as int),
    ensures
        r.0 == div_trunc(rot_a(p as int, q as int, s as int, c as int), SCALE as int),
        r.1 == div_trunc(rot_b(p as int, q as int, s as int, c as int), SCALE as int),
        r.0 * r.0 + r.1 * r.1 <= p * p + q * q,
        -NORM_CAP <= r.0 <= NORM_CAP,
        -NORM_CAP <= r.1 <= NORM_CAP,
{
    proof {
        assert(-NORM_CAP <= p <= NORM_CAP && -NORM_CAP <= q <= NORM_CAP) by (nonlinear_arith)
            requires
                p * p + q * q <= NORM_CAP * NORM_CAP,
                NORM_CAP == 2_000_000i64,
        ;
        assert(-SCALE <= s <= SCALE && -SCALE <= c <= SCALE) by (nonlinear_arith)
            requires
                s * s + c * c <= SCALE * SCALE,
                SCALE == 1_000_000i64,
        ;
        assert({
            &&& -2_000_000_000_000 <= p * c <= 2_000_000_000_000
            &&& -2_000_000_000_000 <= q * s <= 2_000_000_000_000
            &&& -2_000_000_000_000 <= p * s <= 2_000_000_000_000
            &&& -2_000_000_000_000 <= q * c <= 2_000_000_000_000
        }) by (nonlinear_arith)
            requires
                -2_000_000 <= p <= 2_000_000,
                -2_000_000 <= q <= 2_000_000,
                -1_000_000 <= s <= 1_000_000,
                -1_000_000 <= c <= 1_000_000,
        ;
    }
    let a: i64 = p * c - q * s;
    let b: i64 = p * s + q * c;
    let r0 = div_fixed(a, SCALE);
    let r1 = div_fixed(b, SCALE);
    proof {
        lemma_rot_norm_identity(p as int, q as int, s as int, c as int);
        assert(p * p + q * q >= 0) by (nonlinear_arith);
        assert((p * p + q * q) * (s * s + c * c) <= (p * p + q * q) * (SCALE * SCALE))
            by (nonlinear_arith)
            requires
                s * s + c * c <= SCALE * SCALE,
                p * p + q * q >= 0,
        ;
        lemma_div_trunc_sq(a as int, SCALE as int);
        lemma_div_trunc_sq(b as int, SCALE as int);
        assert(r0 * r0 + r1 * r1 <= p * p + q * q) by (nonlinear_arith)
            requires
                r0 * r0 * ((SCALE as int) * (SCALE as int)) <= a * a,
                r1 * r1 * ((SCALE as int) * (SCALE as int)) <= b * b,
                a * a + b * b <= (p * p + q * q) * (SCALE * SCALE),
                SCALE == 1_000_000i64,
        ;
        assert(-NORM_CAP <= r0 <= NORM_CAP && -NORM_CAP <= r1 <= NORM_CAP) by (nonlinear_arith)
            requires
                r0 * r0 + r1 * r1 <= p * p + q * q,
                p * p + q * q <= NORM_CAP * NORM_CAP,
                NORM_CAP == 2_000_000i64,
        ;
    }
    (r0, r1)
}

} // verus!
