use meteo_station::clock::{Moment, Span};
use meteo_station::link::{AppState, BleEvent, FrameEvent, STALE_AFTER_SECS, STATION_DEFAULT};
use meteo_station::model::SignalState;
use meteo_station::series::Series;

/// A minimal telemetry record for the tests: a temperature and the device uptime.
#[derive(Clone, Copy, Debug, PartialEq)]
struct Reading {
    temperature_c: Option<f32>,
    uptime_s: u32,
}

fn reading(temperature_c: Option<f32>, uptime_s: u32) -> Reading {
    Reading { temperature_c, uptime_s }
}

fn empty() -> Reading {
    reading(None, 0)
}

fn base() -> Moment {
    Moment::from_nanos(7_000_000_000)
}

fn stale_after() -> Span {
    Span::from_secs(STALE_AFTER_SECS)
}

/// Apply `ev`, pushing the temperature into `temp` when the frame is new.
fn apply(app: &mut AppState<Reading>, temp: &mut Series<(f64, f64)>, fe: FrameEvent<Reading>, now: Moment) {
    let t = fe.telemetry;
    if let Some(at) = app.apply(BleEvent::Frame(fe), t.uptime_s, now) {
        if let Some(v) = t.temperature_c {
            temp.push((at.as_nanos() as f64 / 1e9, f64::from(v)));
        }
    }
}

/// A fuller frame for the series tests.
#[derive(Clone, Copy, Debug, Default, PartialEq)]
struct Frame {
    temperature_c: Option<f32>,
    sky_temp_c: Option<f32>,
    pressure_hpa: Option<f32>,
    luminosity_lux: Option<f32>,
    wind_speed_ms: Option<f32>,
    humidity_pct: Option<f32>,
    uptime_s: u32,
}

/// The chart series fed by new device-seconds.
struct Charts {
    temp: Series<(f64, f64)>,
    sky: Series<(f64, f64)>,
    pressure: Series<(f64, f64)>,
    lux: Series<(f64, f64)>,
    wind: Series<(f64, f64)>,
    humidity: Series<(f64, f64)>,
}

impl Charts {
    fn new() -> Self {
        let cap = Series::<(f64, f64)>::DEFAULT_CAP;
        Charts {
            temp: Series::new(cap),
            sky: Series::new(cap),
            pressure: Series::new(cap),
            lux: Series::new(cap),
            wind: Series::new(cap),
            humidity: Series::new(cap),
        }
    }

    fn apply(&mut self, app: &mut AppState<Frame>, t: Frame, now: Moment) {
        if let Some(at) = app.apply(BleEvent::Frame(FrameEvent::new(t)), t.uptime_s, now) {
            let secs = at.as_nanos() as f64 / 1e9;
            let pairs = [
                (&mut self.temp, t.temperature_c),
                (&mut self.sky, t.sky_temp_c),
                (&mut self.pressure, t.pressure_hpa),
                (&mut self.lux, t.luminosity_lux),
                (&mut self.wind, t.wind_speed_ms),
                (&mut self.humidity, t.humidity_pct),
            ];
            for (series, v) in pairs {
                if let Some(v) = v {
                    series.push((secs, f64::from(v)));
                }
            }
        }
    }
}

#[test]
fn apply_frame_updates_latest_and_series() {
    let base = base();
    let mut app = AppState::new(base, Frame::default());
    let mut charts = Charts::new();
    let t = Frame {
        temperature_c: Some(22.5),
        sky_temp_c: Some(-8.0),
        pressure_hpa: Some(1013.0),
        luminosity_lux: Some(1200.0),
        wind_speed_ms: Some(3.5),
        humidity_pct: Some(55.0),
        uptime_s: 1,
    };
    charts.apply(&mut app, t, base);
    assert_eq!(app.latest.temperature_c, Some(22.5));
    assert!(app.last_frame_at.is_some());
    assert_eq!(charts.temp.points().len(), 1);
    assert_eq!(charts.sky.points().len(), 1);
    assert_eq!(charts.pressure.points().len(), 1);
    assert_eq!(charts.lux.points().len(), 1);
    assert_eq!(charts.wind.points().len(), 1);
    assert_eq!(charts.humidity.points().len(), 1);
}

#[test]
fn apply_frame_skips_none_fields_in_series() {
    let base = base();
    let mut app = AppState::new(base, Frame::default());
    let mut charts = Charts::new();
    let t = Frame { temperature_c: Some(22.5), pressure_hpa: None, luminosity_lux: None, uptime_s: 1, ..Frame::default() };
    charts.apply(&mut app, t, base);
    assert!(charts.pressure.is_empty());
    assert!(charts.lux.is_empty());
    assert_eq!(charts.temp.points().len(), 1);
}

#[test]
fn is_stale_true_before_first_frame() {
    let base = base();
    let app = AppState::new(base, empty());
    assert!(app.is_stale(base, stale_after()));
}

#[test]
fn is_stale_false_within_window() {
    let base = base();
    let mut app = AppState::new(base, empty());
    let t = reading(Some(20.0), 1);
    app.apply(BleEvent::Frame(FrameEvent::new(t)), t.uptime_s, base);
    assert!(!app.is_stale(base.plus(Span::from_secs(1)), stale_after()));
}

#[test]
fn is_stale_true_after_window() {
    let base = base();
    let mut app = AppState::new(base, empty());
    let t = reading(Some(20.0), 1);
    app.apply(BleEvent::Frame(FrameEvent::new(t)), t.uptime_s, base);
    let later = base.plus(stale_after()).plus(Span::from_secs(1));
    assert!(app.is_stale(later, stale_after()));
}

#[test]
fn signal_state_transitions() {
    let base = base();
    let mut app = AppState::new(base, empty());
    assert_eq!(app.signal_state(base), SignalState::NoSignal);
    let t = reading(Some(20.0), 1);
    app.apply(BleEvent::Frame(FrameEvent::new(t)), t.uptime_s, base);
    assert_eq!(app.signal_state(base), SignalState::Live);
    assert_eq!(app.signal_state(base.plus(Span::from_secs(1))), SignalState::Live);
    let later = base.plus(stale_after()).plus(Span::from_secs(1));
    assert_eq!(app.signal_state(later), SignalState::Stale);
}

#[test]
fn apply_dedupes_duplicate_uptime() {
    let base = base();
    let mut app = AppState::new(base, empty());
    let mut temp = Series::new(Series::<(f64, f64)>::DEFAULT_CAP);
    let t1 = reading(Some(22.5), 10);
    let t2 = reading(Some(23.0), 10);
    let t3 = reading(Some(23.5), 11);
    apply(&mut app, &mut temp, FrameEvent::new(t1), base);
    apply(&mut app, &mut temp, FrameEvent::new(t2), base);
    assert_eq!(app.frame_count, 1, "duplicate must not increment frame_count");
    assert_eq!(temp.points().len(), 1, "duplicate must not add a second series point");
    apply(&mut app, &mut temp, FrameEvent::new(t3), base);
    assert_eq!(app.frame_count, 2);
    assert_eq!(temp.points().len(), 2);
}

#[test]
fn apply_updates_latest_on_duplicate() {
    let base = base();
    let mut app = AppState::new(base, empty());
    let mut temp = Series::new(Series::<(f64, f64)>::DEFAULT_CAP);
    apply(&mut app, &mut temp, FrameEvent::new(reading(Some(22.5), 5)), base);
    let fe2 = FrameEvent { telemetry: reading(Some(99.0), 5), rssi: Some(-70), station: None };
    apply(&mut app, &mut temp, fe2, base);
    assert_eq!(
        app.latest.temperature_c,
        Some(99.0),
        "latest must reflect the most recent event even on a duplicate"
    );
    assert_eq!(app.rssi, Some(-70), "rssi must update on every event, including duplicates");
    assert_eq!(app.frame_count, 1, "frame_count must not increment on duplicate");
    assert_eq!(temp.points().len(), 1, "series must not gain a point on duplicate");
}

#[test]
fn apply_increments_frame_count() {
    let base = base();
    let mut app = AppState::new(base, empty());
    app.apply(BleEvent::Frame(FrameEvent::new(reading(None, 10))), 10, base);
    app.apply(BleEvent::Frame(FrameEvent::new(reading(None, 11))), 11, base);
    assert_eq!(app.frame_count, 2);
}

#[test]
fn apply_carries_rssi_and_station() {
    let base = base();
    let mut app = AppState::new(base, empty());
    let fe = FrameEvent {
        telemetry: reading(None, 1),
        rssi: Some(-65),
        station: Some("rooftop-01".to_owned()),
    };
    app.apply(BleEvent::Frame(fe), 1, base);
    assert_eq!(app.rssi, Some(-65));
    assert_eq!(app.station.as_deref(), Some("rooftop-01"));
}

#[test]
fn apply_keeps_rssi_and_station_when_absent() {
    let base = base();
    let mut app = AppState::new(base, empty());
    let fe = FrameEvent { telemetry: reading(None, 1), rssi: Some(-65), station: Some("a".to_owned()) };
    app.apply(BleEvent::Frame(fe), 1, base);
    app.apply(BleEvent::Frame(FrameEvent::new(reading(None, 2))), 2, base);
    assert_eq!(app.rssi, Some(-65));
    assert_eq!(app.station.as_deref(), Some("a"));
}

#[test]
fn apply_returns_time_since_session_start() {
    let base = base();
    let mut app = AppState::new(base, empty());
    let at = app.apply(BleEvent::Frame(FrameEvent::new(reading(None, 1))), 1, base.plus(Span::from_millis(2_500)));
    assert_eq!(at, Some(Span::from_millis(2_500)));
    let dup = app.apply(BleEvent::Frame(FrameEvent::new(reading(None, 1))), 1, base.plus(Span::from_secs(3)));
    assert_eq!(dup, None);
    assert_eq!(app.last_frame_at, Some(base.plus(Span::from_secs(3))));
}

#[test]
fn frame_event_new_defaults_none() {
    let fe = FrameEvent::new(reading(None, 42));
    assert!(fe.rssi.is_none(), "rssi should default to None");
    assert!(fe.station.is_none(), "station should default to None");
    assert_eq!(fe.telemetry.uptime_s, 42, "telemetry must be preserved");
}

#[test]
fn station_default_name() {
    assert_eq!(STATION_DEFAULT, "MeteoStation");
}
