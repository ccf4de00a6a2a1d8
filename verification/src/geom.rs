//! Fixed-point vectors and rotations.
//!
//! A [`Vec3Fx`] holds world-space coordinates scaled by [`crate::math::SCALE`];
//! a [`QuatFx`] holds the components of a (unit) orientation quaternion at the
//! same scale.  Rotating a vector is specified exactly: the integer numerator
//! polynomial of the standard quaternion rotation formula, divided once by
//! `SCALE * SCALE` with truncation towards zero.

use vstd::prelude::*;

verus! {

use crate::math::{div_towards_zero, sqrt_floor, isqrt, wide_mul, wide_mul128, SCALE};

/// Magnitude bound for quaternion components: a unit quaternion keeps every
/// component within one, so `1.1` leaves room for fixed-point error in the
/// pose a headset reports.
pub const QUAT_BOUND: i64 = 1_100_000;

/// Magnitude bound on the coordinates of vectors handed to [`rotate`]:
/// four distance units, ample for movement-intent vectors whose
/// coordinates lie in `[-1, 1]`.
pub const INTENT_BOUND: i64 = 4_000_000;

/// Magnitude bound on coordinates of a rotated vector: one hundred units.
pub const ROTATED_BOUND: i64 = 100_000_000;

/// Magnitude bound on coordinates accepted by [`flat_norm`].
pub const NORM_BOUND: i64 = 3_000_000_000;

/// `SCALE * SCALE`, the divisor of the rotation numerator.
pub const SCALE_SQ: i64 = 1_000_000_000_000;

/// A world-space vector in fixed-point coordinates.
#[derive(Clone, Copy, PartialEq, Eq, Structural, Debug)]
pub struct Vec3Fx {
    pub x: i64,
    pub y: i64,
    pub z: i64,
}

/// An orientation quaternion in fixed-point components.
#[derive(Clone, Copy, PartialEq, Eq, Structural, Debug)]
pub struct QuatFx {
    pub x: i64,
    pub y: i64,
    pub z: i64,
    pub w: i64,
}

impl Vec3Fx {
    /// All coordinates within `[-m, m]`.
    pub open spec fn bounded(self, m: int) -> bool {
        &&& -m <= self.x <= m
        &&& -m <= self.y <= m
        &&& -m <= self.z <= m
    }
}

impl QuatFx {
    /// All components within `[-m, m]`.
    pub open spec fn bounded(self, m: int) -> bool {
        &&& -m <= self.x <= m
        &&& -m <= self.y <= m
        &&& -m <= self.z <= m
        &&& -m <= self.w <= m
    }
}

/// The cross product of two integer vectors.
pub open spec fn cross(a: (int, int, int), b: (int, int, int)) -> (int, int, int) {
    (a.1 * b.2 - a.2 * b.1, a.2 * b.0 - a.0 * b.2, a.0 * b.1 - a.1 * b.0)
}

/// Numerator of the quaternion rotation `q * v * conj(q)` for a unit
/// quaternion, written as `v + 2 w (u x v) + 2 u x (u x v)` with
/// `u = (q.x, q.y, q.z)`.  The fixed-point rotated vector is this value
/// divided by `SCALE * SCALE`.
pub open spec fn rotated_num(q: QuatFx, v: Vec3Fx) -> (int, int, int) {
    let u = (q.x as int, q.y as int, q.z as int);
    let t = cross(u, (v.x as int, v.y as int, v.z as int));
    let c = cross(u, t);
    (
        ((SCALE as int) * (SCALE as int)) * (v.x as int) + 2 * ((q.w as int) * t.0) + 2 * c.0,
        ((SCALE as int) * (SCALE as int)) * (v.y as int) + 2 * ((q.w as int) * t.1) + 2 * c.1,
        ((SCALE as int) * (SCALE as int)) * (v.z as int) + 2 * ((q.w as int) * t.2) + 2 * c.2,
    )
}

/// Squared length of the horizontal (ground-plane) part of a vector.
pub open spec fn norm2_xz(x: int, z: int) -> int {
    x * x + z * z
}

/// Magnitudes multiply: `|a| <= ma` and `|b| <= mb` give `|a b| <= ma mb`.
pub proof fn lemma_mul_magnitude(a: int, b: int, ma: int, mb: int)
    requires
        -ma <= a <= ma,
        -mb <= b <= mb,
        0 <= ma,
        0 <= mb,
    ensures
        -(ma * mb) <= a * b <= ma * mb,
{
    assert(-(ma * mb) <= a * b <= ma * mb) by (nonlinear_arith)
        requires
            -ma <= a <= ma,
            -mb <= b <= mb,
            0 <= ma,
            0 <= mb,
    ;
}

/// A square is nonnegative and bounded by the square of the bound.
pub proof fn lemma_square_bounds(a: int, m: int)
    requires
        -m <= a <= m,
        0 <= m,
    ensures
        0 <= a * a <= m * m,
{
    assert(0 <= a * a <= m * m) by (nonlinear_arith)
        requires
            -m <= a <= m,
            0 <= m,
    ;
}

/// Bounds on the first cross product inside [`rotated_num`]: each
/// component is at most `2 * QUAT_BOUND * INTENT_BOUND`.
proof fn lemma_cross_term_bounds(q: QuatFx, v: Vec3Fx)
    requires
        q.bounded(QUAT_BOUND as int),
        v.bounded(INTENT_BOUND as int),
    ensures
        ({
            let t = cross(
                (q.x as int, q.y as int, q.z as int),
                (v.x as int, v.y as int, v.z as int),
            );
            &&& -10_000_000_000_000 <= t.0 <= 10_000_000_000_000
            &&& -10_000_000_000_000 <= t.1 <= 10_000_000_000_000
            &&& -10_000_000_000_000 <= t.2 <= 10_000_000_000_000
        }),
{
    let qb = QUAT_BOUND as int;
    let vb = INTENT_BOUND as int;
    lemma_mul_magnitude(q.y as int, v.z as int, qb, vb);
    lemma_mul_magnitude(q.z as int, v.y as int, qb, vb);
    lemma_mul_magnitude(q.z as int, v.x as int, qb, vb);
    lemma_mul_magnitude(q.x as int, v.z as int, qb, vb);
    lemma_mul_magnitude(q.x as int, v.y as int, qb, vb);
    lemma_mul_magnitude(q.y as int, v.x as int, qb, vb);
    assert(qb * vb == 4_400_000_000_000);
}

/// Bounds on the full rotation numerator: at most `10^20` per component.
proof fn lemma_rotated_num_bounds(q: QuatFx, v: Vec3Fx)
    requires
        q.bounded(QUAT_BOUND as int),
        v.bounded(INTENT_BOUND as int),
    ensures
        ({
            let p = rotated_num(q, v);
            &&& -100_000_000_000_000_000_000 <= p.0 <= 100_000_000_000_000_000_000
            &&& -100_000_000_000_000_000_000 <= p.1 <= 100_000_000_000_000_000_000
            &&& -100_000_000_000_000_000_000 <= p.2 <= 100_000_000_000_000_000_000
        }),
{
    let qb = QUAT_BOUND as int;
    let vb = INTENT_BOUND as int;
    let tb = 10_000_000_000_000int;
    lemma_cross_term_bounds(q, v);
    let u = (q.x as int, q.y as int, q.z as int);
    let t = cross(u, (v.x as int, v.y as int, v.z as int));
    lemma_mul_magnitude(q.y as int, t.2, qb, tb);
    lemma_mul_magnitude(q.z as int, t.1, qb, tb);
    lemma_mul_magnitude(q.z as int, t.0, qb, tb);
    lemma_mul_magnitude(q.x as int, t.2, qb, tb);
    lemma_mul_magnitude(q.x as int, t.1, qb, tb);
    lemma_mul_magnitude(q.y as int, t.0, qb, tb);
    lemma_mul_magnitude(q.w as int, t.0, qb, tb);
    lemma_mul_magnitude(q.w as int, t.1, qb, tb);
    lemma_mul_magnitude(q.w as int, t.2, qb, tb);
    let s2 = (SCALE as int) * (SCALE as int);
    assert(s2 == 1_000_000_000_000);
    lemma_mul_magnitude(s2, v.x as int, s2, vb);
    lemma_mul_magnitude(s2, v.y as int, s2, vb);
    lemma_mul_magnitude(s2, v.z as int, s2, vb);
    assert(qb * tb == 11_000_000_000_000_000_000);
    assert(s2 * vb == 4_000_000_000_000_000_000);
}

/// A rotation numerator divided by `SCALE * SCALE` stays within
/// [`ROTATED_BOUND`].
proof fn lemma_rotated_result_bound(p: int)
    requires
        -100_000_000_000_000_000_000 <= p <= 100_000_000_000_000_000_000,
    ensures
        -(ROTATED_BOUND as int) <= div_towards_zero(p, (SCALE as int) * (SCALE as int))
            <= ROTATED_BOUND as int,
{
    let s2 = (SCALE as int) * (SCALE as int);
    assert(s2 == 1_000_000_000_000);
    crate::math::lemma_div_towards_zero_magnitude(p, s2, 100_000_000_000_000_000_000);
    vstd::arithmetic::div_mod::lemma_div_multiples_vanish(100_000_000, s2);
    assert(s2 * 100_000_000 == 100_000_000_000_000_000_000);
}

/// Rotate `v` by the orientation `q`.  Each coordinate of the result is
/// the exact integer numerator of the quaternion rotation formula,
/// truncated once by `SCALE * SCALE`.  The whole computation is 128-bit
/// integer arithmetic.
pub fn rotate(q: &QuatFx, v: &Vec3Fx) -> (r: Vec3Fx)
    requires
        q.bounded(QUAT_BOUND as int),
        v.bounded(INTENT_BOUND as int),
    ensures
        r.x == div_towards_zero(rotated_num(*q, *v).0, (SCALE as int) * (SCALE as int)),
        r.y == div_towards_zero(rotated_num(*q, *v).1, (SCALE as int) * (SCALE as int)),
        r.z == div_towards_zero(rotated_num(*q, *v).2, (SCALE as int) * (SCALE as int)),
        r.bounded(ROTATED_BOUND as int),
{
    proof {
        lemma_cross_term_bounds(*q, *v);
    }
    let t0: i128 = wide_mul(q.y, v.z) - wide_mul(q.z, v.y);
    let t1: i128 = wide_mul(q.z, v.x) - wide_mul(q.x, v.z);
    let t2: i128 = wide_mul(q.x, v.y) - wide_mul(q.y, v.x);
    let c0: i128 = wide_mul128(q.y as i128, t2) - wide_mul128(q.z as i128, t1);
    let c1: i128 = wide_mul128(q.z as i128, t0) - wide_mul128(q.x as i128, t2);
    let c2: i128 = wide_mul128(q.x as i128, t1) - wide_mul128(q.y as i128, t0);
    let s2: i128 = SCALE_SQ as i128;
    proof {
        assert((SCALE as int) * (SCALE as int) == SCALE_SQ as int);
    }
    let p0: i128 = wide_mul128(s2, v.x as i128) + 2 * wide_mul128(q.w as i128, t0) + 2 * c0;
    let p1: i128 = wide_mul128(s2, v.y as i128) + 2 * wide_mul128(q.w as i128, t1) + 2 * c1;
    let p2: i128 = wide_mul128(s2, v.z as i128) + 2 * wide_mul128(q.w as i128, t2) + 2 * c2;
    proof {
        lemma_rotated_num_bounds(*q, *v);
        assert(p0 == rotated_num(*q, *v).0);
        assert(p1 == rotated_num(*q, *v).1);
        assert(p2 == rotated_num(*q, *v).2);
        lemma_rotated_result_bound(p0 as int);
        lemma_rotated_result_bound(p1 as int);
        lemma_rotated_result_bound(p2 as int);
    }
    let rx: i128 = crate::math::div_trunc(p0, s2);
    let ry: i128 = crate::math::div_trunc(p1, s2);
    let rz: i128 = crate::math::div_trunc(p2, s2);
    Vec3Fx { x: rx as i64, y: ry as i64, z: rz as i64 }
}

/// The length, rounded down, of the horizontal part `(x, z)` of a vector.
pub fn flat_norm(x: i64, z: i64) -> (n: u64)
    requires
        -NORM_BOUND <= x <= NORM_BOUND,
        -NORM_BOUND <= z <= NORM_BOUND,
    ensures
        n == sqrt_floor(norm2_xz(x as int, z as int)),
        n <= 4_294_967_295,
{
    proof {
        lemma_square_bounds(x as int, NORM_BOUND as int);
        lemma_square_bounds(z as int, NORM_BOUND as int);
        assert((NORM_BOUND as int) * (NORM_BOUND as int) == 9_000_000_000_000_000_000)
           ;
    }
    let xx: i128 = wide_mul(x, x);
    let zz: i128 = wide_mul(z, z);
    let s: i128 = xx + zz;
    isqrt(s as u64)
}

} // verus!
