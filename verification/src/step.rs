//! Adaptive raymarch step size.
//!
//! Each frame scales the distance estimate at the camera by a fixed factor
//! and clamps it into `[STEP_MIN, STEP_MAX]`. The lower bound keeps the
//! march from stalling inside dense fractal regions, the upper bound keeps
//! it from overshooting in empty space; both bounds are load-bearing.

use vstd::prelude::*;

verus! {

use crate::fixed::{clamped, tdiv, div_trunc, clamp_i64};

/// Smallest permitted step: `1e-10` world units, one fixed-point unit.
pub const STEP_MIN: i64 = 1;

/// Largest permitted step: `0.01` world units.
pub const STEP_MAX: i64 = 100_000_000;

/// The scale factor `0.02` applied to the raw distance estimate, as the
/// rational `STEP_NUM / STEP_DEN`.
pub const STEP_NUM: i64 = 2;

/// Denominator of the step scale factor.
pub const STEP_DEN: i64 = 100;

/// The step size derived from a raw distance estimate `d` (fixed-point):
/// `d` scaled by `0.02`, clamped into `[STEP_MIN, STEP_MAX]`.
pub open spec fn step_from_distance(d: int) -> int {
    clamped(tdiv(d * STEP_NUM, STEP_DEN as int), STEP_MIN as int, STEP_MAX as int)
}

/// Derive the frame's step size from the distance estimate at the current
/// camera position. Any estimate is accepted, including the negative ones
/// the estimator produces inside the surface; the clamp absorbs them.
pub fn derive_step(d: i64) -> (r: i64)
    ensures
        r == step_from_distance(d as int),
        STEP_MIN <= r <= STEP_MAX,
{
    let scaled: i128 = (d as i128) * 2;
    proof {
        assert(scaled == d * STEP_NUM);
        assert(i128::MIN < scaled);
    }
    let q: i128 = div_trunc(scaled, STEP_DEN as i128);
    proof {
        crate::fixed::lemma_tdiv_bound(
            scaled as int,
            STEP_DEN as int,
            0x8000_0000_0000_0000_0000,
        );
    }
    if q < STEP_MIN as i128 {
        STEP_MIN
    } else if q > STEP_MAX as i128 {
        STEP_MAX
    } else {
        q as i64
    }
}

/// Law: whenever the scaled distance falls outside `[STEP_MIN, STEP_MAX]`,
/// the derived step is exactly the nearest bound, and the step always lies
/// inside the interval.
pub proof fn lemma_step_clamped(d: int)
    ensures
        tdiv(d * STEP_NUM, STEP_DEN as int) < STEP_MIN ==> step_from_distance(d)
            == STEP_MIN,
        tdiv(d * STEP_NUM, STEP_DEN as int) > STEP_MAX ==> step_from_distance(d)
            == STEP_MAX,
        STEP_MIN <= step_from_distance(d) <= STEP_MAX,
{
}

} // verus!
