use sensor_panel::time::TimeSpan;
use sensor_panel::touch::{PhysicalPosition, PointerEvent, Touch, TouchInput, TouchSample};

fn at(ms: u64) -> TimeSpan {
    TimeSpan::from_millis(ms)
}

fn input(npoints: i32, flags: u8, x: i16, y: i16) -> TouchInput {
    TouchInput { npoints, flags, x, y }
}

fn pos(x: i32, y: i32) -> PhysicalPosition {
    PhysicalPosition { x, y }
}

#[test]
fn empty_sample_without_lift_does_nothing() {
    let mut t = Touch::new();
    assert!(t.handle_touch(&input(0, 0, 0, 0), at(5)).is_empty());
    assert_eq!(t.0, None);
}

#[test]
fn lift_is_stored_without_events() {
    let mut t = Touch::new();
    let ev = t.handle_touch(&input(1, 4, 10, 20), at(100));
    assert!(ev.is_empty());
    assert_eq!(t.0, Some(TouchSample { position: pos(10, 20), timestamp: at(100) }));
}

#[test]
fn press_without_lift_is_pressed() {
    let mut t = Touch::new();
    let ev = t.handle_touch(&input(1, 1, -5, 7), at(0));
    assert_eq!(ev, vec![PointerEvent::Pressed(pos(-5, 7))]);
    assert_eq!(t.0, None);
}

#[test]
fn tap_is_silent() {
    let mut t = Touch::new();
    assert!(t.handle_touch(&input(1, 4, 100, 100), at(10)).is_empty());
    let ev = t.handle_touch(&input(1, 1, 119, 81), at(20));
    assert!(ev.is_empty());
    assert_eq!(t.0, None);
}

#[test]
fn press_elsewhere_releases_then_presses() {
    let mut t = Touch::new();
    t.handle_touch(&input(1, 4, 100, 100), at(10));
    let ev = t.handle_touch(&input(1, 1, 120, 100), at(20));
    assert_eq!(ev, vec![PointerEvent::Released(pos(100, 100)), PointerEvent::Pressed(pos(120, 100))]);
    assert_eq!(t.0, None);
}

#[test]
fn idle_lift_released_after_interval() {
    let mut t = Touch::new();
    t.handle_touch(&input(1, 4, 3, 4), at(1000));
    assert!(t.handle_touch(&input(0, 0, 0, 0), at(1300)).is_empty());
    assert!(t.0.is_some());
    let ev = t.handle_touch(&input(0, 0, 0, 0), TimeSpan::new(1, 300_000_001));
    assert_eq!(ev, vec![PointerEvent::Released(pos(3, 4)), PointerEvent::Exited]);
    assert_eq!(t.0, None);
    assert!(t.handle_touch(&input(0, 0, 0, 0), at(5000)).is_empty());
}

#[test]
fn lift_and_press_in_one_sample_is_silent() {
    let mut t = Touch(Some(TouchSample { position: pos(500, 500), timestamp: at(0) }));
    let ev = t.handle_touch(&input(1, 5, 1, 2), at(50));
    assert!(ev.is_empty());
    assert_eq!(t.0, None);
}

#[test]
fn move_flag_alone_keeps_lift() {
    let stored = TouchSample { position: pos(1, 1), timestamp: at(0) };
    let mut t = Touch(Some(stored));
    let ev = t.handle_touch(&input(1, 2, 50, 50), at(50));
    assert!(ev.is_empty());
    assert_eq!(t.0, Some(stored));
}

#[test]
fn extreme_coordinates_are_far_apart() {
    let mut t = Touch(Some(TouchSample { position: pos(i16::MIN as i32, 0), timestamp: at(0) }));
    let ev = t.handle_touch(&input(1, 1, i16::MAX, 0), at(1));
    assert_eq!(ev, vec![PointerEvent::Released(pos(-32768, 0)), PointerEvent::Pressed(pos(32767, 0))]);
}
