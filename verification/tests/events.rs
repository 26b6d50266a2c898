//! The input-event state machine.

use mandelbulb::state::{
    apply_event, drain_events, initial, Event, FrameState, Key, MOUSE_GAIN,
};

#[test]
fn initial_state_values() {
    let s = initial();
    assert_eq!(s.pos.x, 0);
    assert_eq!(s.pos.y, 0);
    assert_eq!(s.pos.z, -25_000_000_000);
    assert_eq!(s.yaw, 0);
    assert_eq!(s.pitch, 0);
    assert_eq!(s.intent, 0);
    assert!(s.mouse_look);
    assert!(s.running);
}

#[test]
fn press_w_sets_forward_intent() {
    let mut s = initial();
    assert!(apply_event(&mut s, Event::KeyDown(Key::W)));
    assert_eq!(s.intent, 1);
}

#[test]
fn release_of_other_key_keeps_intent() {
    let mut s = initial();
    apply_event(&mut s, Event::KeyDown(Key::W));
    // A stale release of the opposite key must not clear an active intent.
    apply_event(&mut s, Event::KeyUp(Key::S));
    assert_eq!(s.intent, 1);
}

#[test]
fn release_of_matching_key_clears_intent() {
    let mut s = initial();
    apply_event(&mut s, Event::KeyDown(Key::W));
    apply_event(&mut s, Event::KeyUp(Key::W));
    assert_eq!(s.intent, 0);

    apply_event(&mut s, Event::KeyDown(Key::S));
    assert_eq!(s.intent, -1);
    apply_event(&mut s, Event::KeyUp(Key::W));
    assert_eq!(s.intent, -1);
    apply_event(&mut s, Event::KeyUp(Key::S));
    assert_eq!(s.intent, 0);
}

#[test]
fn last_pressed_direction_wins() {
    let mut s = initial();
    apply_event(&mut s, Event::KeyDown(Key::W));
    apply_event(&mut s, Event::KeyDown(Key::S));
    assert_eq!(s.intent, -1);
}

#[test]
fn other_keys_are_ignored() {
    let mut s = initial();
    apply_event(&mut s, Event::KeyDown(Key::Other));
    apply_event(&mut s, Event::KeyUp(Key::Other));
    assert_eq!(s, initial());
}

#[test]
fn mouse_delta_turns_while_captured() {
    let mut s = initial();
    assert!(apply_event(&mut s, Event::MouseDelta(100, 50)));
    assert_eq!(s.yaw, 100 * MOUSE_GAIN);
    assert_eq!(s.pitch, 50 * MOUSE_GAIN);
}

#[test]
fn escape_freezes_mouse_look_until_button_press() {
    let mut s = initial();
    apply_event(&mut s, Event::KeyDown(Key::Escape));
    assert!(!s.mouse_look);
    // Deltas while capture is off must not steer the camera.
    apply_event(&mut s, Event::MouseDelta(100, 50));
    apply_event(&mut s, Event::MouseDelta(-3, 7));
    assert_eq!(s.yaw, 0);
    assert_eq!(s.pitch, 0);
    // A button press re-acquires capture; deltas steer again.
    apply_event(&mut s, Event::ButtonPress);
    assert!(s.mouse_look);
    apply_event(&mut s, Event::MouseDelta(100, 50));
    assert_eq!(s.yaw, 100 * MOUSE_GAIN);
    assert_eq!(s.pitch, 50 * MOUSE_GAIN);
}

#[test]
fn escape_leaves_intent_alone() {
    let mut s = initial();
    apply_event(&mut s, Event::KeyDown(Key::W));
    apply_event(&mut s, Event::KeyDown(Key::Escape));
    assert_eq!(s.intent, 1);
    assert!(!s.mouse_look);
}

#[test]
fn close_stops_loop_but_later_events_still_apply() {
    let mut s = initial();
    let evs = vec![Event::CloseRequested, Event::KeyDown(Key::W)];
    assert!(drain_events(&mut s, &evs));
    assert!(!s.running);
    assert_eq!(s.intent, 1);
}

#[test]
fn drain_applies_in_order() {
    let mut s = initial();
    let evs = vec![
        Event::KeyDown(Key::W),
        Event::KeyDown(Key::S),
        Event::KeyUp(Key::W),
    ];
    assert!(drain_events(&mut s, &evs));
    // W then S: last pressed wins; the stale W release must not clear it.
    assert_eq!(s.intent, -1);
}

#[test]
fn overflowing_delta_is_refused_atomically() {
    let mut s = FrameState { yaw: i64::MAX, ..initial() };
    let before = s;
    assert!(!apply_event(&mut s, Event::MouseDelta(1, 1)));
    assert_eq!(s, before);
}

#[test]
fn drain_stops_at_overflowing_delta() {
    let mut s = FrameState { pitch: i64::MIN, ..initial() };
    let evs = vec![Event::MouseDelta(0, -1), Event::KeyDown(Key::W)];
    assert!(!drain_events(&mut s, &evs));
    // The drain stopped before the key press.
    assert_eq!(s.intent, 0);
    assert_eq!(s.pitch, i64::MIN);
}

#[test]
fn uncaptured_delta_never_overflows() {
    let mut s = FrameState { yaw: i64::MAX, mouse_look: false, ..initial() };
    assert!(apply_event(&mut s, Event::MouseDelta(1, 1)));
    assert_eq!(s.yaw, i64::MAX);
}
