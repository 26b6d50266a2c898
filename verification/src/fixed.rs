//! Fixed-point scalars.
//!
//! World-space quantities (positions, angles, step sizes) are held as `i64`
//! multiples of `1 / SCALE` world units. The helpers here are the shared
//! arithmetic: clamping into an interval and division that truncates toward
//! zero, with the exec implementations proved against the spec-level
//! definitions.

use vstd::prelude::*;

verus! {

/// Fixed-point units per world unit: one unit is `1e-10` of a world unit,
/// fine enough to represent the smallest raymarch step exactly.
pub const SCALE: i64 = 10_000_000_000;

/// `SCALE * SCALE`, the divisor that rescales a product of two
/// `SCALE`-scaled factors.
pub const SCALE_SQ: i128 = 100_000_000_000_000_000_000;

/// A value clamped into `[lo, hi]`.
pub open spec fn clamped(v: int, lo: int, hi: int) -> int {
    if v < lo {
        lo
    } else if v > hi {
        hi
    } else {
        v
    }
}

/// Division truncating toward zero (the behaviour of `/` on machine
/// integers), for a positive divisor; spec-level `/` is Euclidean, so the
/// negative case is spelled out.
pub open spec fn tdiv(a: int, b: int) -> int {
    if a >= 0 {
        a / b
    } else {
        -((-a) / b)
    }
}

/// A quotient is no larger in magnitude than the bound of the dividend
/// divided out: `|a| <= m * b` gives `|tdiv(a, b)| <= m`.
pub proof fn lemma_tdiv_bound(a: int, b: int, m: int)
    by (nonlinear_arith)
    requires
        b > 0,
        0 <= m,
        -(m * b) <= a <= m * b,
    ensures
        -m <= tdiv(a, b) <= m,
{
}

/// Clamp an `i64` into `[lo, hi]`.
pub fn clamp_i64(v: i64, lo: i64, hi: i64) -> (r: i64)
    requires
        lo <= hi,
    ensures
        r == clamped(v as int, lo as int, hi as int),
{
    if v < lo {
        lo
    } else if v > hi {
        hi
    } else {
        v
    }
}

/// Division of an `i128` by a positive divisor, truncating toward zero.
pub fn div_trunc(a: i128, b: i128) -> (q: i128)
    requires
        b > 0,
        a > i128::MIN,
    ensures
        q == tdiv(a as int, b as int),
{
    if a >= 0 {
        let qa: u128 = (a as u128) / (b as u128);
        proof {
            lemma_u128_div_le(a as u128, b as u128);
        }
        qa as i128
    } else {
        let m: u128 = (-a) as u128;
        let qm: u128 = m / (b as u128);
        proof {
            lemma_u128_div_le(m, b as u128);
        }
        -(qm as i128)
    }
}

/// Unsigned division never exceeds the dividend (divisor at least one).
proof fn lemma_u128_div_le(a: u128, b: u128)
    by (nonlinear_arith)
    requires
        b >= 1,
    ensures
        0 <= a / b <= a,
{
}

} // verus!
