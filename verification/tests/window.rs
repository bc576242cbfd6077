use pebble::window::{TouchPhase, TouchPoint, TouchSet};

fn touch(id: u64, phase: TouchPhase, x: f64, y: f64) -> TouchPoint<(f64, f64)> {
    TouchPoint { id, position: (x, y), phase }
}

#[test]
fn a_started_touch_appears_in_touches() {
    let mut input = TouchSet::new();
    input.handle_touch(touch(1, TouchPhase::Started, 10.0, 20.0));

    assert_eq!(input.touch_count(), 1);
    let points = input.touches();
    assert_eq!(points[0].id, 1);
    assert_eq!(points[0].position, (10.0, 20.0));
    assert_eq!(points[0].phase, TouchPhase::Started);
}

#[test]
fn a_moved_touch_updates_the_same_id_in_place() {
    let mut input = TouchSet::new();
    input.handle_touch(touch(1, TouchPhase::Started, 0.0, 0.0));
    input.handle_touch(touch(1, TouchPhase::Moved, 5.0, 5.0));

    assert_eq!(input.touch_count(), 1, "a moved touch must not create a second point");
    assert_eq!(input.touches()[0].position, (5.0, 5.0));
}

#[test]
fn an_ended_touch_is_removed() {
    let mut input = TouchSet::new();
    input.handle_touch(touch(1, TouchPhase::Started, 0.0, 0.0));
    input.handle_touch(touch(1, TouchPhase::Ended, 0.0, 0.0));

    assert_eq!(input.touch_count(), 0);
}

#[test]
fn a_cancelled_touch_is_removed() {
    let mut input = TouchSet::new();
    input.handle_touch(touch(1, TouchPhase::Started, 0.0, 0.0));
    input.handle_touch(touch(1, TouchPhase::Cancelled, 0.0, 0.0));

    assert_eq!(input.touch_count(), 0);
}

#[test]
fn multiple_simultaneous_touches_are_tracked_independently() {
    let mut input = TouchSet::new();
    input.handle_touch(touch(1, TouchPhase::Started, 0.0, 0.0));
    input.handle_touch(touch(2, TouchPhase::Started, 100.0, 100.0));

    assert_eq!(input.touch_count(), 2);
    input.handle_touch(touch(1, TouchPhase::Ended, 0.0, 0.0));
    assert_eq!(input.touch_count(), 1);
    assert_eq!(input.touches()[0].id, 2);
}

#[test]
fn ending_an_unknown_touch_changes_nothing() {
    let mut input = TouchSet::new();
    input.handle_touch(touch(4, TouchPhase::Started, 1.0, 1.0));
    input.handle_touch(touch(9, TouchPhase::Ended, 0.0, 0.0));
    assert_eq!(input.touch_count(), 1);
    assert_eq!(input.touches()[0].id, 4);
}
