use meteo_station::clock::{Moment, Span};
use meteo_station::model::{compass_point_fr, fmt_uptime, link_label, SignalState};
use meteo_station::options::{MarkerStyle, Options};
use meteo_station::series::Series;

/// An arbitrary monotonic reading standing for "now".
fn now() -> Moment {
    Moment::from_nanos(3_600_000_000_000)
}

#[test]
fn signal_state_no_signal() {
    let now = now();
    let state = SignalState::from_age(None, now, Span::from_secs(5));
    assert_eq!(state, SignalState::NoSignal);
}

#[test]
fn signal_state_live() {
    let now = now();
    let state = SignalState::from_age(Some(now), now, Span::from_secs(5));
    assert_eq!(state, SignalState::Live);
}

#[test]
fn signal_state_stale() {
    let base = now();
    let later = base.plus(Span::from_secs(10));
    let state = SignalState::from_age(Some(base), later, Span::from_secs(5));
    assert_eq!(state, SignalState::Stale);
}

#[test]
fn signal_state_exactly_at_limit_is_live() {
    let base = now();
    let later = base.plus(Span::from_secs(5));
    assert_eq!(SignalState::from_age(Some(base), later, Span::from_secs(5)), SignalState::Live);
    let later = base.plus(Span::from_nanos(5_000_000_001));
    assert_eq!(SignalState::from_age(Some(base), later, Span::from_secs(5)), SignalState::Stale);
}

#[test]
fn signal_state_frame_in_future_is_live() {
    let base = now();
    let earlier = Moment::from_nanos(0);
    assert_eq!(SignalState::from_age(Some(base), earlier, Span::zero()), SignalState::Live);
}

#[test]
fn fmt_uptime_hours() {
    assert_eq!(fmt_uptime(3725), "1h02m");
}

#[test]
fn fmt_uptime_minutes() {
    assert_eq!(fmt_uptime(90), "1m30s");
}

#[test]
fn fmt_uptime_seconds_only() {
    assert_eq!(fmt_uptime(45), "0m45s");
}

#[test]
fn fmt_uptime_edges() {
    assert_eq!(fmt_uptime(0), "0m00s");
    assert_eq!(fmt_uptime(59), "0m59s");
    assert_eq!(fmt_uptime(60), "1m00s");
    assert_eq!(fmt_uptime(3599), "59m59s");
    assert_eq!(fmt_uptime(3600), "1h00m");
    assert_eq!(fmt_uptime(u32::MAX), "1193046h28m");
}

#[test]
fn compass_point_fr_cardinals_and_wrap() {
    assert_eq!(compass_point_fr(0), "N");
    assert_eq!(compass_point_fr(4), "E");
    assert_eq!(compass_point_fr(8), "S");
    assert_eq!(compass_point_fr(12), "O");
    assert_eq!(compass_point_fr(9), "SSO");
    assert_eq!(compass_point_fr(15), "NNO");
    assert_eq!(compass_point_fr(16), "N");
}

#[test]
fn link_label_live_and_offline() {
    assert_eq!(link_label(SignalState::Live), "En direct");
    assert_eq!(link_label(SignalState::Stale), "Hors ligne");
    assert_eq!(link_label(SignalState::NoSignal), "Hors ligne");
}

#[test]
fn options_default_for_test_values() {
    let o = Options::default_for_test();
    assert_eq!(o.marker_style, MarkerStyle::Dots);
    assert!(o.show_grid);
    assert!(o.gust_trail);
    assert!(o.fill);
}

#[test]
fn series_caps_at_capacity_dropping_oldest() {
    let cap = 5_usize;
    let mut s: Series<(f64, f64)> = Series::new(cap);
    for i in 0..10_i32 {
        s.push((f64::from(i), f64::from(i)));
    }
    let pts = s.points();
    assert_eq!(pts.len(), cap);
    assert_eq!(pts[0], (5.0, 5.0));
}

#[test]
fn series_push_preserves_order_and_bounds() {
    let mut s: Series<(f64, f64)> = Series::new(Series::<(f64, f64)>::DEFAULT_CAP);
    s.push((0.0, 10.0));
    s.push((1.0, 5.0));
    s.push((2.0, 15.0));
    let pts = s.points();
    assert_eq!(pts.len(), 3);
    assert_eq!(pts[0], (0.0, 10.0));
    assert_eq!(pts[1], (1.0, 5.0));
    assert_eq!(pts[2], (2.0, 15.0));
    assert_eq!(s.first().map(|p| p.0), Some(0.0));
    assert_eq!(s.last().map(|p| p.0), Some(2.0));
}

#[test]
fn series_empty_and_zero_capacity() {
    let mut s: Series<u32> = Series::new(0);
    assert!(s.is_empty());
    assert_eq!(s.first(), None);
    s.push(1);
    s.push(2);
    assert_eq!(s.points(), &[1, 2]);
    let mut one: Series<u32> = Series::new(1);
    one.push(1);
    one.push(2);
    assert_eq!(one.points(), &[2]);
    assert_eq!(one.len(), 1);
}
