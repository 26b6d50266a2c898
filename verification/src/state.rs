//! Camera state and the input-event state machine.
//!
//! One frame of the demo drains a queue of window/device events and folds
//! each into the controller state: close requests stop the loop, the W and
//! S keys set a forward/back movement intent (a release clears the intent
//! only when it matches the direction that set it), Escape releases pointer
//! capture, a mouse button press re-acquires it, and mouse deltas turn the
//! camera only while capture is active. The fold is specified by
//! [`event_step`] and proved exactly for [`apply_event`] and
//! [`drain_events`].

use vstd::prelude::*;

verus! {

use crate::fixed::SCALE;

/// World bound on each position axis: `5.0` world units.
pub const POS_BOUND: i64 = 50_000_000_000;

/// Radians (fixed-point) that one unit of raw mouse delta turns the
/// camera: `0.001`.
pub const MOUSE_GAIN: i64 = 10_000_000;

/// Initial camera `z`: `-2.5` world units, outside the fractal looking in.
pub const START_Z: i64 = -25_000_000_000;

/// A camera position, fixed-point world coordinates.
#[derive(Clone, Copy, PartialEq, Eq, Structural, Debug)]
pub struct Vec3 {
    pub x: i64,
    pub y: i64,
    pub z: i64,
}

/// The keys the controller reacts to; anything else is `Other`.
#[derive(Clone, Copy, PartialEq, Eq, Structural, Debug)]
pub enum Key {
    W,
    S,
    Escape,
    Other,
}

/// One input event, as the windowing backend delivers them.
#[derive(Clone, Copy, PartialEq, Eq, Structural, Debug)]
pub enum Event {
    CloseRequested,
    KeyDown(Key),
    KeyUp(Key),
    /// Raw relative mouse motion, in device counts.
    MouseDelta(i32, i32),
    ButtonPress,
}

/// Everything the frame loop mutates: camera pose, movement intent,
/// pointer capture, and whether the loop keeps running.
#[derive(Clone, Copy, PartialEq, Eq, Structural, Debug)]
pub struct FrameState {
    pub pos: Vec3,
    /// Unbounded accumulated yaw, fixed-point radians.
    pub yaw: i64,
    /// Unbounded accumulated pitch, fixed-point radians.
    pub pitch: i64,
    /// `1` forward, `-1` back, `0` idle; last key pressed wins.
    pub intent: i8,
    /// Pointer capture: mouse deltas steer the camera only while `true`.
    pub mouse_look: bool,
    pub running: bool,
}

impl FrameState {
    /// Well-formedness: the intent is a direction and the position sits
    /// inside the world bound on every axis.
    pub open spec fn wf(self) -> bool {
        &&& -1 <= self.intent <= 1
        &&& -POS_BOUND <= self.pos.x <= POS_BOUND
        &&& -POS_BOUND <= self.pos.y <= POS_BOUND
        &&& -POS_BOUND <= self.pos.z <= POS_BOUND
    }
}

/// The state the demo starts in: at `(0, 0, -2.5)` facing along the axes,
/// idle, pointer captured, running.
pub open spec fn initial_state() -> FrameState {
    FrameState {
        pos: Vec3 { x: 0, y: 0, z: START_Z },
        yaw: 0,
        pitch: 0,
        intent: 0,
        mouse_look: true,
        running: true,
    }
}

/// Build the initial state.
pub fn initial() -> (s: FrameState)
    ensures
        s == initial_state(),
        s.wf(),
{
    FrameState {
        pos: Vec3 { x: 0, y: 0, z: START_Z },
        yaw: 0,
        pitch: 0,
        intent: 0,
        mouse_look: true,
        running: true,
    }
}

/// What one event does to the state. Yaw and pitch additions are written
/// with truncating casts so the function is total; [`event_fits`] marks the
/// inputs on which the additions stay inside `i64` and the casts are exact.
pub open spec fn event_step(s: FrameState, e: Event) -> FrameState {
    match e {
        Event::CloseRequested => FrameState { running: false, ..s },
        Event::KeyDown(k) => match k {
            Key::W => FrameState { intent: 1, ..s },
            Key::S => FrameState { intent: -1i8, ..s },
            Key::Escape => FrameState { mouse_look: false, ..s },
            Key::Other => s,
        },
        Event::KeyUp(k) => match k {
            Key::W => if s.intent == 1 {
                FrameState { intent: 0, ..s }
            } else {
                s
            },
            Key::S => if s.intent == -1 {
                FrameState { intent: 0, ..s }
            } else {
                s
            },
            Key::Escape => s,
            Key::Other => s,
        },
        Event::MouseDelta(dx, dy) => if s.mouse_look {
            FrameState {
                yaw: (s.yaw + dx * MOUSE_GAIN) as i64,
                pitch: (s.pitch + dy * MOUSE_GAIN) as i64,
                ..s
            }
        } else {
            s
        },
        Event::ButtonPress => FrameState { mouse_look: true, ..s },
    }
}

/// Whether applying `e` to `s` stays inside machine bounds: only a mouse
/// delta while capture is active accumulates, and it must keep yaw and
/// pitch inside `i64`.
pub open spec fn event_fits(s: FrameState, e: Event) -> bool {
    match e {
        Event::MouseDelta(dx, dy) => s.mouse_look ==> {
            &&& i64::MIN <= s.yaw + dx * MOUSE_GAIN <= i64::MAX
            &&& i64::MIN <= s.pitch + dy * MOUSE_GAIN <= i64::MAX
        },
        _ => true,
    }
}

/// The state after draining `evs` in order, stopping before the first
/// event whose angle accumulation would overflow.
pub open spec fn drain_state(s: FrameState, evs: Seq<Event>) -> FrameState
    decreases evs.len(),
{
    if evs.len() == 0 {
        s
    } else if !event_fits(s, evs[0]) {
        s
    } else {
        drain_state(event_step(s, evs[0]), evs.skip(1))
    }
}

/// Whether draining `evs` from `s` applies every event (no overflow stop).
pub open spec fn drain_ok(s: FrameState, evs: Seq<Event>) -> bool
    decreases evs.len(),
{
    if evs.len() == 0 {
        true
    } else if !event_fits(s, evs[0]) {
        false
    } else {
        drain_ok(event_step(s, evs[0]), evs.skip(1))
    }
}

/// Apply one event. Returns `false`, leaving the state untouched, exactly
/// when the event is a capture-active mouse delta whose accumulation would
/// overflow the fixed-point angles.
pub fn apply_event(state: &mut FrameState, e: Event) -> (ok: bool)
    requires
        old(state).wf(),
    ensures
        final(state).wf(),
        ok == event_fits(*old(state), e),
        ok ==> *final(state) == event_step(*old(state), e),
        !ok ==> *final(state) == *old(state),
{
    match e {
        Event::CloseRequested => {
            state.running = false;
            true
        },
        Event::KeyDown(k) => {
            match k {
                Key::W => {
                    state.intent = 1;
                },
                Key::S => {
                    state.intent = -1;
                },
                Key::Escape => {
                    state.mouse_look = false;
                },
                Key::Other => {},
            }
            true
        },
        Event::KeyUp(k) => {
            match k {
                Key::W => {
                    if state.intent == 1 {
                        state.intent = 0;
                    }
                },
                Key::S => {
                    if state.intent == -1 {
                        state.intent = 0;
                    }
                },
                Key::Escape => {},
                Key::Other => {},
            }
            true
        },
        Event::MouseDelta(dx, dy) => {
            if state.mouse_look {
                let ddx: i64 = (dx as i64) * MOUSE_GAIN;
                let ddy: i64 = (dy as i64) * MOUSE_GAIN;
                if ddx >= 0 && state.yaw > i64::MAX - ddx {
                    return false;
                }
                if ddx < 0 && state.yaw < i64::MIN - ddx {
                    return false;
                }
                if ddy >= 0 && state.pitch > i64::MAX - ddy {
                    return false;
                }
                if ddy < 0 && state.pitch < i64::MIN - ddy {
                    return false;
                }
                state.yaw = state.yaw + ddx;
                state.pitch = state.pitch + ddy;
            }
            true
        },
        Event::ButtonPress => {
            state.mouse_look = true;
            true
        },
    }
}

/// Drain a frame's event queue in order. Returns whether every event was
/// applied; on an overflowing mouse delta the drain stops there, leaving
/// the state at `drain_state` either way.
pub fn drain_events(state: &mut FrameState, events: &Vec<Event>) -> (ok: bool)
    requires
        old(state).wf(),
    ensures
        final(state).wf(),
        ok == drain_ok(*old(state), events@),
        *final(state) == drain_state(*old(state), events@),
{
    let ghost s0: FrameState = *state;
    proof {
        assert(events@.skip(0) =~= events@);
    }
    let mut i: usize = 0;
    while i < events.len()
        invariant
            0 <= i <= events@.len(),
            s0 == *old(state),
            state.wf(),
            drain_state(s0, events@) == drain_state(*state, events@.skip(i as int)),
            drain_ok(s0, events@) == drain_ok(*state, events@.skip(i as int)),
        decreases events@.len() - i,
    {
        let ghost pre: FrameState = *state;
        let ghost rest: Seq<Event> = events@.skip(i as int);
        let e: Event = events[i];
        proof {
            assert(rest[0] == events@[i as int]);
            assert(rest.skip(1) =~= events@.skip(i as int + 1));
        }
        let ok = apply_event(state, e);
        if !ok {
            proof {
                assert(drain_state(pre, rest) == pre);
                assert(!drain_ok(pre, rest));
            }
            return false;
        }
        proof {
            assert(drain_state(pre, rest) == drain_state(*state, rest.skip(1)));
            assert(drain_ok(pre, rest) == drain_ok(*state, rest.skip(1)));
        }
        i = i + 1;
    }
    proof {
        assert(events@.skip(i as int) =~= Seq::<Event>::empty());
    }
    true
}

/// No event of the sequence is a mouse button press.
pub open spec fn no_button_press(evs: Seq<Event>) -> bool {
    forall|i: int| 0 <= i < evs.len() ==> evs[i] != Event::ButtonPress
}

/// Law: a key release clears the movement intent only when it matches the
/// direction that set it. Pressing one direction and then seeing the other
/// key's release leaves the intent in place; releasing the matching key
/// clears it.
pub proof fn lemma_release_clears_only_matching(s: FrameState)
    ensures
        event_step(event_step(s, Event::KeyDown(Key::W)), Event::KeyUp(Key::S)).intent == 1,
        event_step(event_step(s, Event::KeyDown(Key::W)), Event::KeyUp(Key::W)).intent == 0,
        event_step(event_step(s, Event::KeyDown(Key::S)), Event::KeyUp(Key::W)).intent == -1,
        event_step(event_step(s, Event::KeyDown(Key::S)), Event::KeyUp(Key::S)).intent == 0,
{
}

/// Law: while pointer capture is off (as after Escape), no sequence of
/// events without a button press can change yaw or pitch, or re-enable
/// capture — and such a drain never stops early, since nothing
/// accumulates.
pub proof fn lemma_mouse_look_frozen(s: FrameState, evs: Seq<Event>)
    requires
        !s.mouse_look,
        no_button_press(evs),
    ensures
        drain_ok(s, evs),
        drain_state(s, evs).yaw == s.yaw,
        drain_state(s, evs).pitch == s.pitch,
        !drain_state(s, evs).mouse_look,
    decreases evs.len(),
{
    if evs.len() > 0 {
        let s1 = event_step(s, evs[0]);
        assert(evs[0] != Event::ButtonPress);
        assert(!s1.mouse_look && s1.yaw == s.yaw && s1.pitch == s.pitch);
        assert forall|i: int| 0 <= i < evs.skip(1).len() implies evs.skip(1)[i]
            != Event::ButtonPress by {
            assert(evs.skip(1)[i] == evs[i + 1]);
        }
        lemma_mouse_look_frozen(s1, evs.skip(1));
    }
}

} // verus!
