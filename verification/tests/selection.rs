use meteo_station::selection::{Preset, TimeSelection};
use meteo_station::window::TimeWindow;

#[test]
fn selection_presets_follow_now() {
    let now = 1_700_000_000_i64;
    let mut sel = TimeSelection::new(now);
    assert!(sel.following);
    assert_eq!(sel.window, TimeWindow { from_ts: now - 86_400, to_ts: now });
    sel.following = false;
    sel.on_preset(Preset::Week, now);
    assert!(sel.following);
    assert_eq!(sel.window, TimeWindow { from_ts: now - 7 * 86_400, to_ts: now });
}

#[test]
fn selection_custom_range_parses_datetime_local() {
    let mut sel = TimeSelection::new(1_700_000_000);
    sel.on_apply("2024-01-15T00:00", "2024-01-15T13:00");
    assert!(!sel.following);
    assert_eq!(sel.window, TimeWindow { from_ts: 1_705_276_800, to_ts: 1_705_276_800 + 46_800 });
}

#[test]
fn selection_custom_range_rejects_bad_input() {
    let mut sel = TimeSelection::new(1_700_000_000);
    let before = sel.window;
    sel.on_apply("2024-01-15T13:00", "2024-01-15T00:00");
    assert_eq!(sel.window, before);
    assert!(!sel.following);
    sel.on_apply("not a date", "2024-01-15T00:00");
    assert_eq!(sel.window, before);
}

#[test]
fn selection_follow_tick_keeps_span() {
    let mut sel = TimeSelection::new(1_000_000);
    sel.on_follow_tick(1_000_030);
    assert_eq!(sel.window, TimeWindow { from_ts: 1_000_030 - 86_400, to_ts: 1_000_030 });
    sel.apply_custom_range(Some(10), Some(20));
    sel.on_follow_tick(5_000);
    assert_eq!(sel.window, TimeWindow { from_ts: 10, to_ts: 20 });
}
