use simple_translate::dispatch::{
    emission, on_trigger, open_settings_on_startup, resolve_position, Debouncer, PointerEvent,
    PointerTracker,
};

#[test]
fn debounce_rejects_within_window() {
    let mut debouncer = Debouncer::new();
    assert!(debouncer.should_proceed(1000));
    assert!(!debouncer.should_proceed(1050));
}

#[test]
fn debounce_accepts_after_window() {
    let mut debouncer = Debouncer::new();
    assert!(debouncer.should_proceed(1000));
    assert!(debouncer.should_proceed(1400));
}

#[test]
fn debounce_boundary_is_inclusive() {
    let mut debouncer = Debouncer::new();
    assert!(debouncer.should_proceed(1000));
    assert!(!debouncer.should_proceed(1299));
    let mut debouncer2 = Debouncer::new();
    assert!(debouncer2.should_proceed(1000));
    assert!(debouncer2.should_proceed(1300));
}

#[test]
fn rejected_trigger_keeps_the_window_anchor() {
    let mut debouncer = Debouncer::new();
    assert!(debouncer.should_proceed(1000));
    assert!(!debouncer.should_proceed(1200));
    // The window still counts from 1000: had the rejected call at 1200
    // moved the anchor, 1350 would be rejected too.
    assert!(debouncer.should_proceed(1350));
}

#[test]
fn tracker_records_primary_release() {
    let mut t = PointerTracker::new();
    assert_eq!(t.last_position(), (0, 0));
    t.on_event(PointerEvent::PrimaryRelease, Some((120, -45)));
    assert_eq!(t.last_position(), (120, -45));
}

#[test]
fn tracker_ignores_other_events_and_failed_queries() {
    let mut t = PointerTracker::new();
    t.on_event(PointerEvent::PrimaryRelease, Some((7, 8)));
    t.on_event(PointerEvent::Other, Some((1, 2)));
    t.on_event(PointerEvent::PrimaryRelease, None);
    assert_eq!(t.last_position(), (7, 8));
}

#[test]
fn position_falls_back_only_on_sentinel() {
    assert_eq!(resolve_position((0, 0), (55, 66)), (55, 66));
    assert_eq!(resolve_position((10, 0), (55, 66)), (10, 0));
    assert_eq!(resolve_position((0, 3), (55, 66)), (0, 3));
}

#[test]
fn trigger_combines_debounce_and_position() {
    let mut debouncer = Debouncer::new();
    assert_eq!(on_trigger(&mut debouncer, 500, (0, 0), (9, 9)), Some((9, 9)));
    assert_eq!(on_trigger(&mut debouncer, 600, (4, 4), (9, 9)), None);
    assert_eq!(on_trigger(&mut debouncer, 900, (4, 4), (9, 9)), Some((4, 4)));
}

#[test]
fn emission_builds_payload_only_for_text() {
    let p = emission(Some("hello".to_string()), (3, 4)).expect("expected a payload");
    assert_eq!(p.text, "hello");
    assert_eq!(p.x, 3);
    assert_eq!(p.y, 4);
    assert!(emission(None, (3, 4)).is_none());
}

#[test]
fn settings_window_opens_only_on_a_broken_first_run() {
    assert!(open_settings_on_startup(true, true, false));
    assert!(open_settings_on_startup(true, false, true));
    assert!(!open_settings_on_startup(true, false, false));
    assert!(!open_settings_on_startup(false, true, true));
}
