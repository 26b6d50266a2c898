//! One whole frame of the controller, and frame pacing.

use mandelbulb::fixed::SCALE;
use mandelbulb::frame::{
    advance_frame, remaining_frame_budget, FRAME_BUDGET_NANOS,
};
use mandelbulb::state::{apply_event, initial, Event, Key};
use mandelbulb::step::STEP_MAX;

#[test]
fn one_forward_frame_from_start() {
    // Initial pose (0, 0, -2.5), yaw 0, pitch 0; W held; the distance
    // estimate is chosen so the derived step is exactly 0.01.
    let mut s = initial();
    apply_event(&mut s, Event::KeyDown(Key::W));
    let r = advance_frame(&mut s, 5_000_000_000, 0, SCALE, 0, SCALE, &vec![]);
    assert_eq!(r.speed, STEP_MAX);
    assert!(r.events_ok);
    // yaw = 0 moves along +z: -2.5 becomes -2.49.
    assert_eq!(s.pos.x, 0);
    assert_eq!(s.pos.y, 0);
    assert_eq!(s.pos.z, -24_900_000_000);
    assert!(s.running);
}

#[test]
fn frame_moves_then_drains() {
    // The release in this frame's queue is consumed after the movement,
    // so the frame still displaces the camera.
    let mut s = initial();
    apply_event(&mut s, Event::KeyDown(Key::W));
    let evs = vec![Event::KeyUp(Key::W)];
    let r = advance_frame(&mut s, 5_000_000_000, 0, SCALE, 0, SCALE, &evs);
    assert!(r.events_ok);
    assert_eq!(s.pos.z, -24_900_000_000);
    assert_eq!(s.intent, 0);
}

#[test]
fn idle_frame_only_drains() {
    let mut s = initial();
    let evs = vec![Event::CloseRequested];
    let r = advance_frame(&mut s, 5_000_000_000, 0, SCALE, 0, SCALE, &evs);
    assert_eq!(r.speed, STEP_MAX);
    assert_eq!(s.pos, initial().pos);
    assert!(!s.running);
}

#[test]
fn pacing_sleeps_the_unspent_budget() {
    // 5 ms of work against the 16 ms budget leaves 11 ms to sleep.
    assert_eq!(remaining_frame_budget(5_000_000), 11_000_000);
}

#[test]
fn pacing_zero_work_sleeps_whole_budget() {
    assert_eq!(remaining_frame_budget(0), FRAME_BUDGET_NANOS);
}

#[test]
fn pacing_overrun_does_not_sleep() {
    assert_eq!(remaining_frame_budget(FRAME_BUDGET_NANOS), 0);
    assert_eq!(remaining_frame_budget(20_000_000), 0);
}
