//! Camera pose update.
//!
//! While the movement intent is nonzero, the camera is displaced along the
//! facing direction derived from yaw and pitch, scaled by the frame's step
//! size, and every resulting axis is clamped back into the world bound
//! `[-POS_BOUND, POS_BOUND]`. The trigonometric factors arrive as
//! fixed-point values in `[-SCALE, SCALE]`; deriving them from the angles
//! is the render backend's side of the split.

use vstd::prelude::*;

verus! {

use crate::fixed::{SCALE, SCALE_SQ, clamped, tdiv, div_trunc, clamp_i64, lemma_tdiv_bound};
use crate::state::{FrameState, Vec3, POS_BOUND};
use crate::step::{STEP_MIN, STEP_MAX};

/// An axis value clamped into the world bound.
pub open spec fn clamped_axis(v: int) -> int {
    clamped(v, -POS_BOUND as int, POS_BOUND as int)
}

/// Displacement along an axis whose direction factor is a product of two
/// trigonometric values (the horizontal axes): `t1 * speed * t2`, rescaled.
pub open spec fn axis_disp2(t1: int, speed: int, t2: int) -> int {
    tdiv(t1 * speed * t2, SCALE_SQ as int)
}

/// Displacement along an axis with a single trigonometric factor (the
/// vertical axis): `t * speed`, rescaled.
pub open spec fn axis_disp1(t: int, speed: int) -> int {
    tdiv(t * speed, SCALE as int)
}

/// The camera pose after one movement update: unchanged when idle,
/// otherwise every axis displaced by the facing direction times the step
/// size (sign from the intent) and clamped into the world bound.
pub open spec fn pose_step(
    s: FrameState,
    sin_yaw: int,
    cos_yaw: int,
    sin_pitch: int,
    cos_pitch: int,
    speed: int,
) -> FrameState {
    if s.intent == 0 {
        s
    } else {
        let sign = s.intent as int;
        FrameState {
            pos: Vec3 {
                x: clamped_axis(s.pos.x + sign * axis_disp2(sin_yaw, speed, cos_pitch)) as i64,
                y: clamped_axis(s.pos.y + sign * axis_disp1(sin_pitch, speed)) as i64,
                z: clamped_axis(s.pos.z + sign * axis_disp2(cos_yaw, speed, cos_pitch)) as i64,
            },
            ..s
        }
    }
}

/// Two-factor displacement, proved within `[-STEP_MAX, STEP_MAX]`.
fn disp2(t1: i64, speed: i64, t2: i64) -> (r: i64)
    requires
        -SCALE <= t1 <= SCALE,
        -SCALE <= t2 <= SCALE,
        0 <= speed <= STEP_MAX,
    ensures
        r == axis_disp2(t1 as int, speed as int, t2 as int),
        -STEP_MAX <= r <= STEP_MAX,
{
    proof {
        assert(-1_000_000_000_000_000_000 <= (t1 as int) * (speed as int)
            <= 1_000_000_000_000_000_000) by (nonlinear_arith)
            requires
                -10_000_000_000 <= t1 as int <= 10_000_000_000,
                0 <= speed as int <= 100_000_000,
        ;
    }
    let a: i128 = (t1 as i128) * (speed as i128);
    proof {
        assert(-10_000_000_000_000_000_000_000_000_000 <= (a as int) * (t2 as int)
            <= 10_000_000_000_000_000_000_000_000_000) by (nonlinear_arith)
            requires
                -1_000_000_000_000_000_000 <= a as int <= 1_000_000_000_000_000_000,
                -10_000_000_000 <= t2 as int <= 10_000_000_000,
        ;
    }
    let p: i128 = a * (t2 as i128);
    let q: i128 = div_trunc(p, SCALE_SQ);
    proof {
        lemma_tdiv_bound(p as int, SCALE_SQ as int, STEP_MAX as int);
    }
    q as i64
}

/// One-factor displacement, proved within `[-STEP_MAX, STEP_MAX]`.
fn disp1(t: i64, speed: i64) -> (r: i64)
    requires
        -SCALE <= t <= SCALE,
        0 <= speed <= STEP_MAX,
    ensures
        r == axis_disp1(t as int, speed as int),
        -STEP_MAX <= r <= STEP_MAX,
{
    proof {
        assert(-1_000_000_000_000_000_000 <= (t as int) * (speed as int)
            <= 1_000_000_000_000_000_000) by (nonlinear_arith)
            requires
                -10_000_000_000 <= t as int <= 10_000_000_000,
                0 <= speed as int <= 100_000_000,
        ;
    }
    let p: i128 = (t as i128) * (speed as i128);
    let q: i128 = div_trunc(p, SCALE as i128);
    proof {
        lemma_tdiv_bound(p as int, SCALE as int, STEP_MAX as int);
    }
    q as i64
}

/// Apply one frame's movement to the camera position. The trigonometric
/// factors are the sine and cosine of the state's yaw and pitch as
/// fixed-point values; the step size comes clamped from the step
/// derivation.
pub fn update_position(
    state: &mut FrameState,
    sin_yaw: i64,
    cos_yaw: i64,
    sin_pitch: i64,
    cos_pitch: i64,
    speed: i64,
)
    requires
        old(state).wf(),
        -SCALE <= sin_yaw <= SCALE,
        -SCALE <= cos_yaw <= SCALE,
        -SCALE <= sin_pitch <= SCALE,
        -SCALE <= cos_pitch <= SCALE,
        STEP_MIN <= speed <= STEP_MAX,
    ensures
        final(state).wf(),
        *final(state) == pose_step(
            *old(state),
            sin_yaw as int,
            cos_yaw as int,
            sin_pitch as int,
            cos_pitch as int,
            speed as int,
        ),
{
    if state.intent == 0 {
        return;
    }
    let dx: i64 = disp2(sin_yaw, speed, cos_pitch);
    let dy: i64 = disp1(sin_pitch, speed);
    let dz: i64 = disp2(cos_yaw, speed, cos_pitch);
    let (mx, my, mz): (i64, i64, i64) = if state.intent == 1 {
        (dx, dy, dz)
    } else {
        (-dx, -dy, -dz)
    };
    state.pos.x = clamp_i64(state.pos.x + mx, -POS_BOUND, POS_BOUND);
    state.pos.y = clamp_i64(state.pos.y + my, -POS_BOUND, POS_BOUND);
    state.pos.z = clamp_i64(state.pos.z + mz, -POS_BOUND, POS_BOUND);
    proof {
        let s0 = *old(state);
        let sign: int = s0.intent as int;
        assert(sign == 1 || sign == -1);
        assert(mx == sign * axis_disp2(sin_yaw as int, speed as int, cos_pitch as int));
        assert(my == sign * axis_disp1(sin_pitch as int, speed as int));
        assert(mz == sign * axis_disp2(cos_yaw as int, speed as int, cos_pitch as int));
        assert(state.pos.x == clamped_axis(
            s0.pos.x + sign * axis_disp2(sin_yaw as int, speed as int, cos_pitch as int),
        ) as i64);
        assert(state.pos.y == clamped_axis(
            s0.pos.y + sign * axis_disp1(sin_pitch as int, speed as int),
        ) as i64);
        assert(state.pos.z == clamped_axis(
            s0.pos.z + sign * axis_disp2(cos_yaw as int, speed as int, cos_pitch as int),
        ) as i64);
    }
}

/// Law: a pre-clamp axis value outside the world bound comes out as the
/// nearest bound, and the clamped value always lies inside the bound.
pub proof fn lemma_position_clamped(v: int)
    ensures
        v > POS_BOUND ==> clamped_axis(v) == POS_BOUND,
        v < -POS_BOUND ==> clamped_axis(v) == -POS_BOUND,
        -POS_BOUND <= clamped_axis(v) <= POS_BOUND,
{
}

} // verus!
