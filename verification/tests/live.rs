use meteo_station::live::{badge_class, badge_label, LiveTracker, SignalLevel};

#[test]
fn live_tracker_goes_live_then_stale() {
    let mut t = LiveTracker::new();
    assert_eq!(t.level, SignalLevel::NoSignal);
    t.on_tick(10_000);
    assert_eq!(t.level, SignalLevel::NoSignal);
    t.on_frame(10_000);
    assert_eq!(t.level, SignalLevel::Live);
    t.on_tick(15_000);
    assert_eq!(t.level, SignalLevel::Live);
    t.on_tick(15_001);
    assert_eq!(t.level, SignalLevel::Stale);
    t.on_frame(16_000);
    assert_eq!(t.level, SignalLevel::Live);
    t.on_tick(9_000);
    assert_eq!(t.level, SignalLevel::Live);
}

#[test]
fn badge_texts() {
    assert_eq!(badge_label(SignalLevel::Live), "En direct");
    assert_eq!(badge_label(SignalLevel::Stale), "Obsolète");
    assert_eq!(badge_label(SignalLevel::NoSignal), "Hors-ligne");
    assert_eq!(badge_class(SignalLevel::Live), "signal-badge signal-live");
    assert_eq!(badge_class(SignalLevel::NoSignal), "signal-badge signal-offline");
}
