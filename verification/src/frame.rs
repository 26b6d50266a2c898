//! The per-frame controller.
//!
//! One call of [`advance_frame`] is everything a frame does to the state:
//! derive the adaptive step size from the distance estimate at the current
//! camera position, displace the camera while a movement intent is held,
//! and drain the frame's input events. Rendering happens outside, before
//! the call, reading the pose the frame started with; frame pacing is the
//! closing [`remaining_frame_budget`] computation, slept off by the caller.

use vstd::prelude::*;

verus! {

use crate::fixed::SCALE;
use crate::state::{FrameState, Event, drain_state, drain_ok, drain_events};
use crate::motion::{pose_step, update_position};
use crate::step::{step_from_distance, derive_step, STEP_MIN, STEP_MAX};

/// Target frame budget: 16 milliseconds.
pub const FRAME_BUDGET_NANOS: u64 = 16_000_000;

/// What one frame reports back: the step size it marched with and whether
/// the whole event queue was applied.
#[derive(Clone, Copy, PartialEq, Eq, Structural, Debug)]
pub struct FrameResult {
    pub speed: i64,
    pub events_ok: bool,
}

/// The state after one whole frame: pose update with the derived step
/// size, then the event drain.
pub open spec fn frame_step(
    s: FrameState,
    raw_distance: int,
    sin_yaw: int,
    cos_yaw: int,
    sin_pitch: int,
    cos_pitch: int,
    evs: Seq<Event>,
) -> FrameState {
    drain_state(
        pose_step(s, sin_yaw, cos_yaw, sin_pitch, cos_pitch, step_from_distance(raw_distance)),
        evs,
    )
}

/// Whether one whole frame applies its entire event queue.
pub open spec fn frame_ok(
    s: FrameState,
    raw_distance: int,
    sin_yaw: int,
    cos_yaw: int,
    sin_pitch: int,
    cos_pitch: int,
    evs: Seq<Event>,
) -> bool {
    drain_ok(
        pose_step(s, sin_yaw, cos_yaw, sin_pitch, cos_pitch, step_from_distance(raw_distance)),
        evs,
    )
}

/// Advance the controller by one frame. `raw_distance` is the fixed-point
/// distance estimate at the current camera position; the trigonometric
/// factors are sine and cosine of the state's yaw and pitch, fixed-point
/// in `[-SCALE, SCALE]`.
pub fn advance_frame(
    state: &mut FrameState,
    raw_distance: i64,
    sin_yaw: i64,
    cos_yaw: i64,
    sin_pitch: i64,
    cos_pitch: i64,
    events: &Vec<Event>,
) -> (r: FrameResult)
    requires
        old(state).wf(),
        -SCALE <= sin_yaw <= SCALE,
        -SCALE <= cos_yaw <= SCALE,
        -SCALE <= sin_pitch <= SCALE,
        -SCALE <= cos_pitch <= SCALE,
    ensures
        final(state).wf(),
        r.speed == step_from_distance(raw_distance as int),
        STEP_MIN <= r.speed <= STEP_MAX,
        *final(state) == frame_step(
            *old(state),
            raw_distance as int,
            sin_yaw as int,
            cos_yaw as int,
            sin_pitch as int,
            cos_pitch as int,
            events@,
        ),
        r.events_ok == frame_ok(
            *old(state),
            raw_distance as int,
            sin_yaw as int,
            cos_yaw as int,
            sin_pitch as int,
            cos_pitch as int,
            events@,
        ),
{
    let speed: i64 = derive_step(raw_distance);
    update_position(state, sin_yaw, cos_yaw, sin_pitch, cos_pitch, speed);
    let events_ok: bool = drain_events(state, events);
    FrameResult { speed, events_ok }
}

/// How long to block after a frame's work to hold the 16 ms pacing: the
/// unspent part of the budget, zero when the frame ran over.
pub fn remaining_frame_budget(elapsed_nanos: u64) -> (r: u64)
    ensures
        elapsed_nanos < FRAME_BUDGET_NANOS ==> r == FRAME_BUDGET_NANOS - elapsed_nanos,
        elapsed_nanos >= FRAME_BUDGET_NANOS ==> r == 0,
{
    if elapsed_nanos < FRAME_BUDGET_NANOS {
        FRAME_BUDGET_NANOS - elapsed_nanos
    } else {
        0
    }
}

} // verus!
