use meteo_station::metric::{
    axis_layout, day_range, trace_source, TraceSource, metric_color, metric_from_str, metric_label, metric_unit, AxisLayout, Metric,
};

#[test]
fn axis_layout_empty_is_shared() {
    assert_eq!(axis_layout(&[]), AxisLayout::Shared);
}

#[test]
fn axis_layout_picks_shared_dual_normalized() {
    assert_eq!(
        axis_layout(&[Metric::AirTemp, Metric::AirTemp]),
        AxisLayout::Shared,
        "repeated single metric should be Shared"
    );
    assert_eq!(axis_layout(&[Metric::Pressure]), AxisLayout::Shared);
    assert_eq!(
        axis_layout(&[Metric::AirTemp, Metric::Pressure, Metric::AirTemp]),
        AxisLayout::DualY(Metric::AirTemp, Metric::Pressure),
        "2 distinct metrics should yield DualY in first-seen order"
    );
    assert_eq!(
        axis_layout(&[Metric::AirTemp, Metric::Pressure, Metric::Humidity]),
        AxisLayout::Normalized,
        "3 distinct metrics should yield Normalized"
    );
    assert_eq!(
        axis_layout(&[Metric::AirTemp, Metric::Pressure, Metric::Humidity, Metric::Lux]),
        AxisLayout::Normalized,
        "4 distinct metrics should yield Normalized"
    );
}

#[test]
fn metric_labels_units_colours() {
    assert_eq!(metric_label(Metric::Humidity), "Humidité");
    assert_eq!(metric_label(Metric::Load), "Charge");
    assert_eq!(metric_unit(Metric::SkyTemp), "°C");
    assert_eq!(metric_unit(Metric::Rain), "mm/h");
    assert_eq!(metric_color(Metric::AirTemp), "#fab387");
    assert_eq!(metric_color(Metric::Solar), metric_color(Metric::Lux));
}

#[test]
fn metric_from_str_parses_keys() {
    let all = [
        Metric::AirTemp, Metric::Pressure, Metric::Humidity, Metric::SkyTemp, Metric::Lux,
        Metric::Wind, Metric::Rain, Metric::Battery, Metric::Solar, Metric::Load,
    ];
    for m in all {
        assert_eq!(metric_from_str(&format!("{m:?}")), m);
    }
    assert_eq!(metric_from_str("unknown"), Metric::AirTemp);
    assert_eq!(metric_from_str(""), Metric::AirTemp);
}

#[test]
fn trace_sources_and_day_range() {
    assert_eq!(trace_source(Metric::AirTemp), TraceSource::Column("temp_avg"));
    assert_eq!(trace_source(Metric::Solar), TraceSource::Power("solar_mv_avg", "solar_ma_avg"));
    assert_eq!(trace_source(Metric::Load), TraceSource::Power("batt_mv_avg", "load_ma_avg"));
    assert_eq!(day_range(1_705_276_800), (1_705_276_800, 1_705_363_200));
    assert_eq!(day_range(i64::MAX - 5), (i64::MAX - 5, i64::MAX));
}
