use photo_frame::touch::{TapDetector, TAP_COOLDOWN_MS};

#[test]
fn a_finger_going_down_is_one_tap() {
    let mut d = TapDetector::new();
    assert!(d.observe(true, 1000));
    assert!(!d.observe(true, 1100), "a resting finger is not another tap");
    assert!(!d.observe(true, 5000));
    assert!(!d.observe(false, 5100));
    assert!(d.observe(true, 5200));
    assert_eq!(d.last_tap_ms, Some(5200));
}

#[test]
fn taps_inside_the_cooldown_are_ignored() {
    let mut d = TapDetector::new();
    assert!(d.observe(true, 10_000));
    assert!(!d.observe(false, 10_100));
    assert!(!d.observe(true, 10_000 + TAP_COOLDOWN_MS - 1));
    assert!(!d.observe(false, 10_700));
    assert!(d.observe(true, 10_000 + TAP_COOLDOWN_MS + 200));
}

#[test]
fn a_clock_that_steps_back_counts_as_no_time() {
    let mut d = TapDetector::new();
    assert!(d.observe(true, 50_000));
    d.observe(false, 50_010);
    assert!(!d.observe(true, 10));
}
