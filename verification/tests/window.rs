use meteo_station::window::{preset_day, preset_month, preset_week, secs_in_day, TimeWindow};

#[test]
fn time_window_bucket_secs_scales_with_span() {
    let w1h = TimeWindow { from_ts: 0, to_ts: 3_600 };
    assert_eq!(w1h.bucket_secs(), 60, "1-hour span should use 60 s buckets");
    let w1d = TimeWindow { from_ts: 0, to_ts: 86_400 };
    assert_eq!(w1d.bucket_secs(), 60, "1-day span should use 60 s (1 min) buckets");
    let w2w = TimeWindow { from_ts: 0, to_ts: 14 * 86_400 };
    assert_eq!(w2w.bucket_secs(), 300, "2-week span should use 300 s (5 min) buckets");
    let w1y = TimeWindow { from_ts: 0, to_ts: 366 * 86_400 };
    assert_eq!(w1y.bucket_secs(), 3_600, "366-day span should use 3600 s (1 h) buckets");
    for (span, bucket) in [(3_600_i64, 60_i64), (86_400, 60), (14 * 86_400, 300), (366 * 86_400, 3_600)] {
        let w = TimeWindow { from_ts: 0, to_ts: span };
        let rows = span / bucket;
        assert!(rows <= 9_000, "span {span} / bucket {bucket} = {rows} rows, expected ≤ 9 000");
        assert_eq!(w.bucket_secs(), bucket, "span {span} should yield bucket {bucket}");
    }
}

#[test]
fn time_window_bucket_ladder_edges() {
    let w = |s: i64| TimeWindow { from_ts: 1_000, to_ts: 1_000 + s }.bucket_secs();
    assert_eq!(w(2 * 86_400), 60);
    assert_eq!(w(2 * 86_400 + 1), 300);
    assert_eq!(w(92 * 86_400), 1_800);
    assert_eq!(w(92 * 86_400 + 1), 3_600);
    assert_eq!(w(366 * 86_400 + 1), 86_400);
    assert_eq!(w(-5), 60);
    assert_eq!(TimeWindow { from_ts: 10, to_ts: 4 }.span_secs(), -6);
}

#[test]
fn time_window_presets_compute_expected_ranges() {
    let now: i64 = 1_700_000_000;
    let day = preset_day(now);
    let week = preset_week(now);
    let month = preset_month(now);
    assert_eq!(day.to_ts, now, "preset_day: to_ts must equal now");
    assert_eq!(day.from_ts, now - 86_400, "preset_day: from_ts must be now - 86400");
    assert_eq!(week.to_ts, now, "preset_week: to_ts must equal now");
    assert_eq!(week.from_ts, now - 7 * 86_400, "preset_week: from_ts must be now - 7 days");
    assert_eq!(month.to_ts, now, "preset_month: to_ts must equal now");
    assert_eq!(month.from_ts, now - 30 * 86_400, "preset_month: from_ts must be now - 30 days");
}

#[test]
fn secs_in_day_offsets() {
    let day_start: i64 = 1_705_276_800;
    assert_eq!(secs_in_day(day_start + 46_800, day_start), 46_800);
    assert_eq!(secs_in_day(day_start, day_start), 0);
    assert_eq!(secs_in_day(day_start - 5, day_start), -5);
    assert_eq!(secs_in_day(i64::MAX, 0), 86_400);
    assert_eq!(secs_in_day(i64::MIN, 1), 86_400);
}

#[test]
fn shifted_moves_both_bounds_and_keeps_span() {
    let w = TimeWindow { from_ts: 1_000_000, to_ts: 1_000_000 + 3_600 };
    let s = w.shifted(900);
    assert_eq!(s, TimeWindow { from_ts: 1_000_900, to_ts: 1_004_500 });
    assert_eq!(s.span_secs(), w.span_secs());
    let back = w.shifted(-1_800);
    assert_eq!(back.from_ts, 998_200);
    assert_eq!(back.span_secs(), 3_600);
}
