use meteo_station::minute::{floor_to_minute, should_flush, MinuteClock};

#[test]
fn floor_to_minute_floors_and_is_idempotent() {
    assert_eq!(floor_to_minute(125), 120, "125 should floor to 120");
    assert_eq!(floor_to_minute(120), 120, "120 should stay 120");
    assert_eq!(
        floor_to_minute(floor_to_minute(125)),
        floor_to_minute(125),
        "floor_to_minute must be idempotent"
    );
    assert_eq!(floor_to_minute(0), 0, "0 should floor to 0");
    assert_eq!(floor_to_minute(59), 0, "59 should floor to 0");
}

#[test]
fn floor_to_minute_negative_and_extremes() {
    assert_eq!(floor_to_minute(-1), -60);
    assert_eq!(floor_to_minute(-60), -60);
    assert_eq!(floor_to_minute(-61), -120);
    assert_eq!(floor_to_minute(i64::MIN), i64::MIN);
    assert_eq!(floor_to_minute(i64::MAX), i64::MAX - 7);
    assert_eq!(floor_to_minute(floor_to_minute(i64::MIN + 3)), floor_to_minute(i64::MIN + 3));
}

#[test]
fn should_flush_only_on_minute_change() {
    assert!(!should_flush(120, 120), "should_flush(120, 120) must be false");
    assert!(should_flush(120, 180), "should_flush(120, 180) must be true");
    assert!(should_flush(0, 60), "should_flush(0, 60) must be true");
}

#[test]
fn minute_clock_seals_on_boundary() {
    let mut c = MinuteClock::start(125);
    assert_eq!(c.open_minute, 120);
    assert_eq!(c.observe(150), None);
    assert_eq!(c.observe(179), None);
    assert_eq!(c.observe(180), Some(120));
    assert_eq!(c.open_minute, 180);
    assert_eq!(c.observe(180), None);
    assert_eq!(c.observe(400), Some(180));
    assert_eq!(c.open_minute, 360);
}
