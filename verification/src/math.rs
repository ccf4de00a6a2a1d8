//! Fixed-point scalar arithmetic.
//!
//! Every quantity the mapping layer works with (angles in degrees, vector
//! coordinates in distance units, speeds in units per second) is carried as
//! an `i64` holding the quantity multiplied by [`SCALE`].  All operations
//! have exact integer specifications, so contracts elsewhere in the crate
//! can pin results down to the last fixed-point step.

use vstd::prelude::*;

verus! {

use vstd::arithmetic::div_mod::{
    lemma_div_is_ordered,
    lemma_div_multiples_vanish,
    lemma_div_nonincreasing,
    lemma_div_pos_is_pos,
};

/// Fixed-point steps per unit: a value `v` stands for the quantity
/// `v / SCALE` (so `1_000_000` is `1.0`).
pub const SCALE: i64 = 1_000_000;

/// Largest magnitude, in fixed-point steps, accepted by the scalar helpers:
/// one million units.  Keeping operands inside this range lets every
/// intermediate product fit comfortably in 128 bits and every quotient in
/// 64 bits.
pub const MAX_FIXED: i64 = 1_000_000_000_000;

/// Division rounding towards zero (the rounding Rust's `/` uses), defined
/// for positive divisors in terms of the mathematical (Euclidean) division.
pub open spec fn div_towards_zero(a: int, b: int) -> int
    recommends
        b > 0,
{
    if a >= 0 {
        a / b
    } else {
        -((-a) / b)
    }
}

/// The value `x` forced into the interval `[lo, hi]`.
pub open spec fn clamped(x: int, lo: int, hi: int) -> int
    recommends
        lo <= hi,
{
    if x < lo {
        lo
    } else if x > hi {
        hi
    } else {
        x
    }
}

/// The integer square root, rounded down; `0` for negative arguments.
pub open spec fn sqrt_floor(x: int) -> int
    decreases x,
{
    if x < 1 {
        0
    } else {
        let r = sqrt_floor(x - 1);
        if (r + 1) * (r + 1) <= x {
            r + 1
        } else {
            r
        }
    }
}

/// `sqrt_floor(x)` is the unique nonnegative root `r` with
/// `r * r <= x < (r + 1) * (r + 1)`.
pub proof fn lemma_sqrt_floor_bounds(x: int)
    requires
        0 <= x,
    ensures
        0 <= sqrt_floor(x),
        sqrt_floor(x) * sqrt_floor(x) <= x,
        x < (sqrt_floor(x) + 1) * (sqrt_floor(x) + 1),
    decreases x,
{
    if x >= 1 {
        lemma_sqrt_floor_bounds(x - 1);
        let r = sqrt_floor(x - 1);
        if (r + 1) * (r + 1) <= x {
            assert(x <= (r + 1) * (r + 1));
            assert((r + 1) * (r + 1) < (r + 2) * (r + 2)) by (nonlinear_arith)
                requires
                    0 <= r,
            ;
        }
    }
}

/// Any nonnegative `r` bracketing `x` between consecutive squares is
/// `sqrt_floor(x)`.
pub proof fn lemma_sqrt_floor_unique(x: int, r: int)
    requires
        0 <= x,
        0 <= r,
        r * r <= x,
        x < (r + 1) * (r + 1),
    ensures
        r == sqrt_floor(x),
{
    lemma_sqrt_floor_bounds(x);
    let s = sqrt_floor(x);
    assert(r < s ==> (r + 1) * (r + 1) <= s * s) by (nonlinear_arith)
        requires
            0 <= r,
            0 <= s,
    ;
    assert(s < r ==> (s + 1) * (s + 1) <= r * r) by (nonlinear_arith)
        requires
            0 <= r,
            0 <= s,
    ;
}

/// Division towards zero never grows the magnitude of the dividend, and
/// keeps its sign.
pub proof fn lemma_div_towards_zero_bounds(a: int, b: int)
    requires
        1 <= b,
    ensures
        a >= 0 ==> 0 <= div_towards_zero(a, b) <= a,
        a < 0 ==> a <= div_towards_zero(a, b) <= 0,
{
    if a >= 0 {
        lemma_div_pos_is_pos(a, b);
        lemma_div_nonincreasing(a, b);
    } else {
        lemma_div_pos_is_pos(-a, b);
        lemma_div_nonincreasing(-a, b);
    }
}

/// Division towards zero is monotone in numeric bounds on the dividend's
/// magnitude: `|a| <= m` implies `|a / b| <= m / b`.
pub proof fn lemma_div_towards_zero_magnitude(a: int, b: int, m: int)
    requires
        1 <= b,
        -m <= a <= m,
        0 <= m,
    ensures
        -(m / b) <= div_towards_zero(a, b) <= m / b,
{
    if a >= 0 {
        lemma_div_pos_is_pos(a, b);
        lemma_div_is_ordered(a, m, b);
    } else {
        lemma_div_pos_is_pos(-a, b);
        lemma_div_is_ordered(-a, m, b);
    }
}

/// With a divisor of at least `d`, division towards zero of a dividend of
/// magnitude at most `m` yields at most `m / d` in magnitude.
pub proof fn lemma_div_towards_zero_denom(a: int, b: int, m: int, d: int)
    requires
        1 <= d <= b,
        -m <= a <= m,
        0 <= m,
    ensures
        -(m / d) <= div_towards_zero(a, b) <= m / d,
{
    lemma_div_towards_zero_magnitude(a, b, m);
    vstd::arithmetic::div_mod::lemma_div_is_ordered_by_denominator(m, d, b);
}

/// The square root of a positive value is positive.
pub proof fn lemma_sqrt_floor_pos(x: int)
    requires
        1 <= x,
    ensures
        1 <= sqrt_floor(x),
{
    lemma_sqrt_floor_bounds(x);
    let s = sqrt_floor(x);
    if s == 0 {
        assert((s + 1) * (s + 1) == 1) by (nonlinear_arith)
            requires
                s == 0,
        ;
    }
}

/// A fixed-point product of operands within [`MAX_FIXED`] stays within
/// `10^18` steps.
pub proof fn lemma_fixed_mul_magnitude(a: int, b: int)
    requires
        -MAX_FIXED <= a <= MAX_FIXED,
        -MAX_FIXED <= b <= MAX_FIXED,
    ensures
        -1_000_000_000_000_000_000 <= div_towards_zero(a * b, SCALE as int)
            <= 1_000_000_000_000_000_000,
{
    assert(-(MAX_FIXED as int * MAX_FIXED as int) <= a * b
        <= MAX_FIXED as int * MAX_FIXED as int) by (nonlinear_arith)
        requires
            -MAX_FIXED <= a <= MAX_FIXED,
            -MAX_FIXED <= b <= MAX_FIXED,
    ;
    lemma_div_towards_zero_magnitude(a * b, SCALE as int, MAX_FIXED as int * MAX_FIXED as int);
    lemma_div_multiples_vanish(1_000_000_000_000_000_000, SCALE as int);
    assert(MAX_FIXED as int * MAX_FIXED as int == SCALE as int * 1_000_000_000_000_000_000);
}

/// Truncating division on 128-bit operands, pinned to [`div_towards_zero`].
pub fn div_trunc(a: i128, b: i128) -> (r: i128)
    requires
        0 < b,
        -0x10000000000000000000000000000 <= a <= 0x10000000000000000000000000000,
    ensures
        r == div_towards_zero(a as int, b as int),
{
    proof {
        lemma_div_towards_zero_bounds(a as int, b as int);
    }
    if a >= 0 {
        let q: u128 = (a as u128) / (b as u128);
        q as i128
    } else {
        let m: i128 = -a;
        let q: u128 = (m as u128) / (b as u128);
        -(q as i128)
    }
}

/// Fixed-point multiplication: the product of two scaled quantities,
/// rescaled by [`SCALE`] with truncation towards zero.
pub fn fixed_mul(a: i64, b: i64) -> (r: i64)
    requires
        -MAX_FIXED <= a <= MAX_FIXED,
        -MAX_FIXED <= b <= MAX_FIXED,
    ensures
        r == div_towards_zero(a as int * b as int, SCALE as int),
{
    proof {
        assert(-(MAX_FIXED as int * MAX_FIXED as int) <= a as int * b as int
            <= MAX_FIXED as int * MAX_FIXED as int) by (nonlinear_arith)
            requires
                -MAX_FIXED <= a <= MAX_FIXED,
                -MAX_FIXED <= b <= MAX_FIXED,
        ;
    }
    let p: i128 = (a as i128) * (b as i128);
    proof {
        lemma_div_towards_zero_magnitude(p as int, SCALE as int, MAX_FIXED as int * MAX_FIXED as int);
        lemma_div_multiples_vanish(1_000_000_000_000_000_000, SCALE as int);
        assert(MAX_FIXED as int * MAX_FIXED as int == SCALE as int * 1_000_000_000_000_000_000);
    }
    let q: i128 = div_trunc(p, SCALE as i128);
    q as i64
}

/// The exact product of two 64-bit values, computed in 128 bits (where it
/// always fits).
pub fn wide_mul(a: i64, b: i64) -> (r: i128)
    ensures
        r == a as int * b as int,
{
    proof {
        assert(-0x40000000000000000000000000000000 <= a as int * b as int
            <= 0x40000000000000000000000000000000) by (nonlinear_arith)
            requires
                -0x8000000000000000 <= a as int <= 0x7fffffffffffffff,
                -0x8000000000000000 <= b as int <= 0x7fffffffffffffff,
        ;
    }
    (a as i128) * (b as i128)
}

/// The exact product of two 128-bit values of magnitude at most `2^60`.
pub fn wide_mul128(a: i128, b: i128) -> (r: i128)
    requires
        -0x1000000000000000 <= a <= 0x1000000000000000,
        -0x1000000000000000 <= b <= 0x1000000000000000,
    ensures
        r == a as int * b as int,
        -0x1000000000000000000000000000000 <= r <= 0x1000000000000000000000000000000,
{
    proof {
        assert(-0x1000000000000000000000000000000 <= a as int * b as int
            <= 0x1000000000000000000000000000000) by (nonlinear_arith)
            requires
                -0x1000000000000000 <= a <= 0x1000000000000000,
                -0x1000000000000000 <= b <= 0x1000000000000000,
        ;
    }
    a * b
}

/// The value `x` forced into the interval `[lo, hi]`.
pub fn clamp_fixed(x: i64, lo: i64, hi: i64) -> (r: i64)
    requires
        lo <= hi,
    ensures
        r == clamped(x as int, lo as int, hi as int),
{
    if x < lo {
        lo
    } else if x > hi {
        hi
    } else {
        x
    }
}

/// The integer square root of a 64-bit value, by bisection.
pub fn isqrt(x: u64) -> (r: u64)
    ensures
        r == sqrt_floor(x as int),
        r * r <= x,
        r <= 4_294_967_295,
{
    let mut lo: u64 = 0;
    let mut hi: u64 = 4_294_967_296;
    proof {
        assert((hi as int) * (hi as int) > u64::MAX as int);
    }
    while lo + 1 < hi
        invariant
            lo < hi,
            hi <= 4_294_967_296,
            (lo as int) * (lo as int) <= x as int,
            (x as int) < (hi as int) * (hi as int),
        decreases hi - lo,
    {
        let mid: u64 = lo + (hi - lo) / 2;
        proof {
            assert((mid as int) * (mid as int) <= 4_294_967_295 * 4_294_967_295)
                by (nonlinear_arith)
                requires
                    0 <= mid < 4_294_967_296,
            ;
        }
        if mid * mid <= x {
            lo = mid;
        } else {
            hi = mid;
        }
    }
    proof {
        lemma_sqrt_floor_unique(x as int, lo as int);
    }
    lo
}

} // verus!
