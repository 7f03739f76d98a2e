//! Fixed-point scalars.
//!
//! Geometry and camera math in this crate work on signed fixed-point numbers:
//! an `i64` holding a real value scaled by [`SCALE`] (24 fractional bits).
//! This module provides the two primitives the rest of the crate needs:
//! truncating division and an integer square root, both with exact contracts.

use vstd::prelude::*;

verus! {

/// One unit as a fixed-point scalar: 2^24.
pub const SCALE: i64 = 0x100_0000;

/// Magnitude bound under which fixed-point scalars can be negated and divided
/// without overflow (2^62).
pub const FIXED_ABS_MAX: i64 = 0x4000_0000_0000_0000;

/// Division rounding toward zero (the rounding of Rust's `/` operator),
/// defined from the Euclidean `/` of specifications.
pub open spec fn div_trunc(a: int, b: int) -> int {
    if a >= 0 {
        a / b
    } else {
        -((-a) / b)
    }
}

/// `r` is the floor of the square root of `n`.
pub open spec fn is_sqrt_floor(n: int, r: int) -> bool {
    0 <= r && r * r <= n && n < (r + 1) * (r + 1)
}

/// Floor of the square root of `n`, as a function.
pub open spec fn sqrt_floor(n: nat) -> nat
    decreases n,
{
    if n == 0 {
        0
    } else {
        let p = sqrt_floor((n - 1) as nat);
        if (p + 1) * (p + 1) <= n {
            p + 1
        } else {
            p
        }
    }
}

/// [`sqrt_floor`] meets its defining property.
pub proof fn lemma_sqrt_floor_is_sqrt(n: nat)
    ensures
        is_sqrt_floor(n as int, sqrt_floor(n) as int),
    decreases n,
{
    if n > 0 {
        lemma_sqrt_floor_is_sqrt((n - 1) as nat);
        let p = sqrt_floor((n - 1) as nat);
        if (p + 1) * (p + 1) <= n {
            assert((p + 1 + 1) * (p + 1 + 1) > n) by (nonlinear_arith)
                requires
                    (n - 1) < (p + 1) * (p + 1),
            ;
        }
    }
}

/// The floor of the square root is unique.
pub proof fn lemma_sqrt_floor_unique(n: int, r1: int, r2: int)
    requires
        is_sqrt_floor(n, r1),
        is_sqrt_floor(n, r2),
    ensures
        r1 == r2,
{
    if r1 < r2 {
        assert((r1 + 1) * (r1 + 1) <= r2 * r2) by (nonlinear_arith)
            requires
                0 <= r1,
                r1 < r2,
        ;
    }
    if r2 < r1 {
        assert((r2 + 1) * (r2 + 1) <= r1 * r1) by (nonlinear_arith)
            requires
                0 <= r2,
                r2 < r1,
        ;
    }
}

/// The remainder left by truncating division: it never exceeds the divisor
/// and carries the sign of the dividend.
pub proof fn lemma_div_trunc_remainder(a: int, d: int)
    requires
        0 < d,
    ensures
        a >= 0 ==> div_trunc(a, d) >= 0 && 0 <= a - div_trunc(a, d) * d < d,
        a < 0 ==> div_trunc(a, d) <= 0 && -d < a - div_trunc(a, d) * d <= 0,
{
    if a >= 0 {
        vstd::arithmetic::div_mod::lemma_fundamental_div_mod(a, d);
        vstd::arithmetic::div_mod::lemma_div_pos_is_pos(a, d);
        assert(d * (a / d) == (a / d) * d) by (nonlinear_arith);
    } else {
        vstd::arithmetic::div_mod::lemma_fundamental_div_mod(-a, d);
        vstd::arithmetic::div_mod::lemma_div_pos_is_pos(-a, d);
        let q = (-a) / d;
        assert(d * q == q * d) by (nonlinear_arith);
        assert((-q) * d == -(q * d)) by (nonlinear_arith);
    }
}

/// Divide `a` by `b`, rounding toward zero.
pub fn div_round_toward_zero(a: i64, b: i64) -> (r: i64)
    requires
        b > 0,
        -FIXED_ABS_MAX <= a <= FIXED_ABS_MAX,
    ensures
        r == div_trunc(a as int, b as int),
{
    if a >= 0 {
        ((a as u64) / (b as u64)) as i64
    } else {
        let m: u64 = ((-a) as u64) / (b as u64);
        -(m as i64)
    }
}

/// Floor of the square root of `n`.
pub fn isqrt(n: u64) -> (r: u64)
    ensures
        r == sqrt_floor(n as nat),
        is_sqrt_floor(n as int, r as int),
{
    let mut lo: u64 = 0;
    let mut hi: u64 = 0x1_0000_0000;
    while hi - lo > 1
        invariant
            lo < hi <= 0x1_0000_0000,
            (lo as int) * (lo as int) <= n as int,
            (n as int) < (hi as int) * (hi as int),
        decreases hi - lo,
    {
        let mid: u64 = lo + (hi - lo) / 2;
        assert(lo < mid < hi);
        assert((mid as int) * (mid as int) < 0x1_0000_0000_0000_0000) by (nonlinear_arith)
            requires
                mid < 0x1_0000_0000u64,
        ;
        if mid * mid <= n {
            lo = mid;
        } else {
            hi = mid;
        }
    }
    proof {
        assert((n as int) < ((lo + 1) as int) * ((lo + 1) as int));
        lemma_sqrt_floor_is_sqrt(n as nat);
        lemma_sqrt_floor_unique(n as int, lo as int, sqrt_floor(n as nat) as int);
    }
    lo
}

} // verus!
