//! Sensor metrics of the history views: labels, units, colours, the parser
//! for their option keys, and the Y-axis layout of the comparison chart.

use vstd::prelude::*;

use crate::frame::{contains_text, occurs_at};
use crate::text::str_equals;
use crate::theme::{css, css_text, swatch_rgb, Swatch};

verus! {

/// Selects a sensor metric for historical and comparison queries.
#[derive(Clone, Copy, Debug, PartialEq, Eq, Structural)]
pub enum Metric {
    /// Ambient air temperature.
    AirTemp,
    /// Barometric pressure.
    Pressure,
    /// Relative humidity.
    Humidity,
    /// Sky (IR) temperature.
    SkyTemp,
    /// Illuminance in lux.
    Lux,
    /// Wind speed.
    Wind,
    /// Rainfall rate.
    Rain,
    /// Battery state-of-charge.
    Battery,
    /// Solar harvest power.
    Solar,
    /// Load power.
    Load,
}

/// Y-axis layout for the overlaid comparison traces.
#[derive(Clone, Copy, Debug, PartialEq, Eq, Structural)]
pub enum AxisLayout {
    /// All traces share one Y axis (0 or 1 distinct metric).
    Shared,
    /// Exactly 2 distinct metrics — left Y axis for the first, right for the second.
    DualY(Metric, Metric),
    /// 3 or more distinct metrics — each trace normalised to its own 0–1 range.
    Normalized,
}

/// The distinct metrics of `s`, in first-seen order.
pub open spec fn distinct_in_order(s: Seq<Metric>) -> Seq<Metric>
    decreases s.len(),
{
    if s.len() == 0 {
        Seq::empty()
    } else {
        let d = distinct_in_order(s.drop_last());
        if d.contains(s.last()) {
            d
        } else {
            d.push(s.last())
        }
    }
}

/// The layout for a list of trace metrics: shared for at most one distinct
/// metric, dual axes (in first-seen order) for exactly two, normalised beyond.
pub open spec fn axis_layout_spec(s: Seq<Metric>) -> AxisLayout {
    let d = distinct_in_order(s);
    if d.len() <= 1 {
        AxisLayout::Shared
    } else if d.len() == 2 {
        AxisLayout::DualY(d[0], d[1])
    } else {
        AxisLayout::Normalized
    }
}

/// Whether `m` occurs in `seen`.
fn seen_contains(seen: &Vec<Metric>, m: Metric) -> (r: bool)
    ensures
        r == seen@.contains(m),
{
    let mut i: usize = 0;
    while i < seen.len()
        invariant
            i <= seen.len(),
            forall|j: int| 0 <= j < i ==> seen@[j] != m,
        decreases seen.len() - i,
    {
        if seen[i] == m {
            assert(seen@[i as int] == m);
            return true;
        }
        i += 1;
    }
    false
}

/// Choose the Y-axis layout from the metrics of the overlaid traces.
pub fn axis_layout(metrics: &[Metric]) -> (l: AxisLayout)
    ensures
        l == axis_layout_spec(metrics@),
{
    let mut seen: Vec<Metric> = Vec::new();
    let mut i: usize = 0;
    while i < metrics.len()
        invariant
            i <= metrics.len(),
            seen@ == distinct_in_order(metrics@.take(i as int)),
        decreases metrics.len() - i,
    {
        let m = metrics[i];
        assert(metrics@.take(i as int + 1).drop_last() == metrics@.take(i as int));
        assert(metrics@.take(i as int + 1).last() == m);
        if !seen_contains(&seen, m) {
            seen.push(m);
        }
        i += 1;
    }
    assert(metrics@.take(metrics.len() as int) == metrics@);
    if seen.len() <= 1 {
        AxisLayout::Shared
    } else if seen.len() == 2 {
        AxisLayout::DualY(seen[0], seen[1])
    } else {
        AxisLayout::Normalized
    }
}

/// Membership in a non-empty sequence: in its prefix or equal to its last item.
proof fn lemma_contains_split(s: Seq<Metric>, m: Metric)
    requires
        s.len() > 0,
    ensures
        s.contains(m) <==> (s.drop_last().contains(m) || m == s.last()),
{
    let t = s.drop_last();
    if s.contains(m) {
        let k = choose|k: int| 0 <= k < s.len() && s[k] == m;
        if k < s.len() - 1 {
            assert(t[k] == s[k]);
        }
    }
    if t.contains(m) {
        let k = choose|k: int| 0 <= k < t.len() && t[k] == m;
        assert(s[k] == t[k]);
    }
    if m == s.last() {
        assert(s[s.len() - 1] == m);
    }
}

/// The distinct list holds each metric of the input exactly once and nothing
/// else, so the layout depends only on how many different metrics are shown.
pub proof fn lemma_distinct_in_order(s: Seq<Metric>)
    ensures
        forall|m: Metric| s.contains(m) <==> distinct_in_order(s).contains(m),
        forall|i: int, j: int|
            0 <= i < j < distinct_in_order(s).len() ==> distinct_in_order(s)[i]
                != distinct_in_order(s)[j],
    decreases s.len(),
{
    if s.len() > 0 {
        let t = s.drop_last();
        let d = distinct_in_order(t);
        lemma_distinct_in_order(t);
        assert forall|m: Metric| s.contains(m) <==> distinct_in_order(s).contains(m) by {
            lemma_contains_split(s, m);
            if !d.contains(s.last()) {
                let e = d.push(s.last());
                if e.contains(m) && m != s.last() {
                    let k = choose|k: int| 0 <= k < e.len() && e[k] == m;
                    assert(d[k] == m);
                }
                if d.contains(m) {
                    let k = choose|k: int| 0 <= k < d.len() && d[k] == m;
                    assert(e[k] == m);
                }
                assert(e[d.len() as int] == s.last());
            }
        }
        if !d.contains(s.last()) {
            let e = d.push(s.last());
            assert forall|i: int, j: int| 0 <= i < j < e.len() implies e[i] != e[j] by {
                if j == d.len() {
                    assert(e[i] == d[i]);
                }
            }
        }
    }
}

/// Short French display label for a metric.
pub open spec fn metric_label_spec(m: Metric) -> Seq<char> {
    match m {
        Metric::AirTemp => "Temp. air"@,
        Metric::Pressure => "Pression"@,
        Metric::Humidity => "Humidité"@,
        Metric::SkyTemp => "Temp. ciel"@,
        Metric::Lux => "Luminosité"@,
        Metric::Wind => "Vent"@,
        Metric::Rain => "Pluie"@,
        Metric::Battery => "Batterie"@,
        Metric::Solar => "Solaire"@,
        Metric::Load => "Charge"@,
    }
}

/// Short French display label for a metric.
pub fn metric_label(m: Metric) -> (s: &'static str)
    ensures
        s@ == metric_label_spec(m),
{
    match m {
        Metric::AirTemp => "Temp. air",
        Metric::Pressure => "Pression",
        Metric::Humidity => "Humidité",
        Metric::SkyTemp => "Temp. ciel",
        Metric::Lux => "Luminosité",
        Metric::Wind => "Vent",
        Metric::Rain => "Pluie",
        Metric::Battery => "Batterie",
        Metric::Solar => "Solaire",
        Metric::Load => "Charge",
    }
}

/// Physical unit label for a metric.
pub open spec fn metric_unit_spec(m: Metric) -> Seq<char> {
    match m {
        Metric::AirTemp | Metric::SkyTemp => "°C"@,
        Metric::Pressure => "hPa"@,
        Metric::Humidity | Metric::Battery => "%"@,
        Metric::Lux => "lx"@,
        Metric::Wind => "m/s"@,
        Metric::Rain => "mm/h"@,
        Metric::Solar | Metric::Load => "W"@,
    }
}

/// Physical unit label for a metric.
pub fn metric_unit(m: Metric) -> (s: &'static str)
    ensures
        s@ == metric_unit_spec(m),
{
    match m {
        Metric::AirTemp | Metric::SkyTemp => "°C",
        Metric::Pressure => "hPa",
        Metric::Humidity | Metric::Battery => "%",
        Metric::Lux => "lx",
        Metric::Wind => "m/s",
        Metric::Rain => "mm/h",
        Metric::Solar | Metric::Load => "W",
    }
}

/// The ASCII option key of a metric (its variant name).
pub open spec fn metric_key(m: Metric) -> Seq<char> {
    match m {
        Metric::AirTemp => "AirTemp"@,
        Metric::Pressure => "Pressure"@,
        Metric::Humidity => "Humidity"@,
        Metric::SkyTemp => "SkyTemp"@,
        Metric::Lux => "Lux"@,
        Metric::Wind => "Wind"@,
        Metric::Rain => "Rain"@,
        Metric::Battery => "Battery"@,
        Metric::Solar => "Solar"@,
        Metric::Load => "Load"@,
    }
}

/// The metric named by an option key; any unknown key selects air temperature.
pub open spec fn metric_from_key(s: Seq<char>) -> Metric {
    if s == "Pressure"@ {
        Metric::Pressure
    } else if s == "Humidity"@ {
        Metric::Humidity
    } else if s == "SkyTemp"@ {
        Metric::SkyTemp
    } else if s == "Lux"@ {
        Metric::Lux
    } else if s == "Wind"@ {
        Metric::Wind
    } else if s == "Rain"@ {
        Metric::Rain
    } else if s == "Battery"@ {
        Metric::Battery
    } else if s == "Solar"@ {
        Metric::Solar
    } else if s == "Load"@ {
        Metric::Load
    } else {
        Metric::AirTemp
    }
}

/// Parse a [`Metric`] from the ASCII key used as an `<option value="…">`.
pub fn metric_from_str(s: &str) -> (m: Metric)
    ensures
        m == metric_from_key(s@),
{
    if str_equals(s, "Pressure") {
        Metric::Pressure
    } else if str_equals(s, "Humidity") {
        Metric::Humidity
    } else if str_equals(s, "SkyTemp") {
        Metric::SkyTemp
    } else if str_equals(s, "Lux") {
        Metric::Lux
    } else if str_equals(s, "Wind") {
        Metric::Wind
    } else if str_equals(s, "Rain") {
        Metric::Rain
    } else if str_equals(s, "Battery") {
        Metric::Battery
    } else if str_equals(s, "Solar") {
        Metric::Solar
    } else if str_equals(s, "Load") {
        Metric::Load
    } else {
        Metric::AirTemp
    }
}

/// Parsing the key of a metric gives that metric back.
pub proof fn lemma_metric_key_roundtrip(m: Metric)
    ensures
        metric_from_key(metric_key(m)) == m,
{
    reveal_strlit("AirTemp");
    reveal_strlit("Pressure");
    reveal_strlit("Humidity");
    reveal_strlit("SkyTemp");
    reveal_strlit("Lux");
    reveal_strlit("Wind");
    reveal_strlit("Rain");
    reveal_strlit("Battery");
    reveal_strlit("Solar");
    reveal_strlit("Load");
    assert("AirTemp"@.len() == 7 && "AirTemp"@[0] == 'A');
    assert("Pressure"@.len() == 8 && "Pressure"@[0] == 'P');
    assert("Humidity"@.len() == 8 && "Humidity"@[0] == 'H');
    assert("SkyTemp"@.len() == 7 && "SkyTemp"@[0] == 'S');
    assert("Lux"@.len() == 3);
    assert("Wind"@.len() == 4 && "Wind"@[0] == 'W');
    assert("Rain"@.len() == 4 && "Rain"@[0] == 'R');
    assert("Battery"@.len() == 7 && "Battery"@[0] == 'B');
    assert("Solar"@.len() == 5);
    assert("Load"@.len() == 4 && "Load"@[0] == 'L');
}

/// Palette swatch of a metric's traces.
pub open spec fn metric_swatch(m: Metric) -> Swatch {
    match m {
        Metric::AirTemp => Swatch::Peach,
        Metric::Pressure => Swatch::Teal,
        Metric::Humidity => Swatch::Sapphire,
        Metric::SkyTemp => Swatch::Lavender,
        Metric::Lux | Metric::Solar => Swatch::Yellow,
        Metric::Wind => Swatch::Sky,
        Metric::Rain => Swatch::Blue,
        Metric::Battery => Swatch::Green,
        Metric::Load => Swatch::Mauve,
    }
}

/// Catppuccin Mocha CSS hex colour for a sensor metric.
pub fn metric_color(m: Metric) -> (s: String)
    ensures
        s@ == css_text(swatch_rgb(metric_swatch(m))),
{
    let w = match m {
        Metric::AirTemp => Swatch::Peach,
        Metric::Pressure => Swatch::Teal,
        Metric::Humidity => Swatch::Sapphire,
        Metric::SkyTemp => Swatch::Lavender,
        Metric::Lux | Metric::Solar => Swatch::Yellow,
        Metric::Wind => Swatch::Sky,
        Metric::Rain => Swatch::Blue,
        Metric::Battery => Swatch::Green,
        Metric::Load => Swatch::Mauve,
    };
    css(w.rgb())
}

/// Where a metric's comparison trace comes from in the per-minute table.
#[derive(Clone, Copy, Debug, PartialEq, Eq)]
pub enum TraceSource {
    /// One stored average column.
    Column(&'static str),
    /// Power from a millivolt column and a milliampere column.
    Power(&'static str, &'static str),
}

/// The stored columns of a metric's trace: one average column, or the
/// voltage and current columns from which power is computed.
pub open spec fn trace_columns(m: Metric) -> (Seq<char>, Option<Seq<char>>) {
    match m {
        Metric::Solar => ("solar_mv_avg"@, Some("solar_ma_avg"@)),
        Metric::Load => ("batt_mv_avg"@, Some("load_ma_avg"@)),
        Metric::AirTemp => ("temp_avg"@, None),
        Metric::Pressure => ("pressure_avg"@, None),
        Metric::Humidity => ("humidity_avg"@, None),
        Metric::SkyTemp => ("sky_avg"@, None),
        Metric::Lux => ("lux_avg"@, None),
        Metric::Wind => ("wind_avg"@, None),
        Metric::Rain => ("rain_avg"@, None),
        Metric::Battery => ("battery_avg"@, None),
    }
}

/// The stored column(s) a metric's comparison trace is read from.
pub fn trace_source(m: Metric) -> (t: TraceSource)
    ensures
        match t {
            TraceSource::Column(c) => trace_columns(m) == (c@, Option::<Seq<char>>::None),
            TraceSource::Power(v, a) => trace_columns(m) == (v@, Some(a@)),
        },
{
    match m {
        Metric::Solar => TraceSource::Power("solar_mv_avg", "solar_ma_avg"),
        Metric::Load => TraceSource::Power("batt_mv_avg", "load_ma_avg"),
        Metric::AirTemp => TraceSource::Column("temp_avg"),
        Metric::Pressure => TraceSource::Column("pressure_avg"),
        Metric::Humidity => TraceSource::Column("humidity_avg"),
        Metric::SkyTemp => TraceSource::Column("sky_avg"),
        Metric::Lux => TraceSource::Column("lux_avg"),
        Metric::Wind => TraceSource::Column("wind_avg"),
        Metric::Rain => TraceSource::Column("rain_avg"),
        Metric::Battery => TraceSource::Column("battery_avg"),
    }
}

/// ASCII lower case of a character.
pub open spec fn ascii_lower(c: char) -> char {
    if 'A' <= c <= 'Z' {
        ((c as int) + 32) as char
    } else {
        c
    }
}

/// `s` in ASCII lower case.
pub open spec fn lower_text(s: Seq<char>) -> Seq<char> {
    s.map_values(|c: char| ascii_lower(c))
}

/// Whether `c` ends with `suffix`.
pub open spec fn ends_with(c: Seq<char>, suffix: Seq<char>) -> bool {
    suffix.len() <= c.len() && c.subrange(c.len() - suffix.len(), c.len() as int) == suffix
}

/// `c` without its last `n` characters.
pub open spec fn drop_tail(c: Seq<char>, n: int) -> Seq<char> {
    c.subrange(0, c.len() - n)
}

/// Length and first character of each single column, which tell them apart.
proof fn lemma_column_shape(m: Metric)
    ensures
        m == Metric::AirTemp ==> trace_columns(m).0.len() == 8 && trace_columns(m).0[0] == 't',
        m == Metric::Pressure ==> trace_columns(m).0.len() == 12 && trace_columns(m).0[0] == 'p',
        m == Metric::Humidity ==> trace_columns(m).0.len() == 12 && trace_columns(m).0[0] == 'h',
        m == Metric::SkyTemp ==> trace_columns(m).0.len() == 7 && trace_columns(m).0[0] == 's',
        m == Metric::Lux ==> trace_columns(m).0.len() == 7 && trace_columns(m).0[0] == 'l',
        m == Metric::Wind ==> trace_columns(m).0.len() == 8 && trace_columns(m).0[0] == 'w',
        m == Metric::Rain ==> trace_columns(m).0.len() == 8 && trace_columns(m).0[0] == 'r',
        m == Metric::Battery ==> trace_columns(m).0.len() == 11 && trace_columns(m).0[0] == 'b',
{
    reveal_strlit("temp_avg");
    reveal_strlit("pressure_avg");
    reveal_strlit("humidity_avg");
    reveal_strlit("sky_avg");
    reveal_strlit("lux_avg");
    reveal_strlit("wind_avg");
    reveal_strlit("rain_avg");
    reveal_strlit("battery_avg");
}

/// The stem of each single column occurs in the metric's lower-cased key,
/// and the column ends in `_avg`; the power metrics read a `_mv_avg` voltage
/// and a `_ma_avg` current column.
proof fn lemma_column_names_metric(m: Metric)
    ensures
        trace_columns(m).1 is None ==> ends_with(trace_columns(m).0, "_avg"@) && contains_text(
            lower_text(metric_key(m)),
            drop_tail(trace_columns(m).0, 4),
        ),
        trace_columns(m).1 is Some ==> ends_with(trace_columns(m).0, "_mv_avg"@) && ends_with(
            trace_columns(m).1.unwrap(),
            "_ma_avg"@,
        ) && contains_text(lower_text(metric_key(m)), drop_tail(trace_columns(m).1.unwrap(), 7)),
        m == Metric::Solar ==> drop_tail(trace_columns(m).0, 7) == drop_tail(
            trace_columns(m).1.unwrap(),
            7,
        ),
{
    reveal_strlit("_avg");
    reveal_strlit("_mv_avg");
    reveal_strlit("_ma_avg");
    let c = trace_columns(m).0;
    let k = lower_text(metric_key(m));
    match m {
        Metric::AirTemp => {
            reveal_strlit("temp_avg");
            reveal_strlit("AirTemp");
            assert(c.subrange(4, 8) =~= "_avg"@);
            assert(k.subrange(3, 7) =~= drop_tail(c, 4));
            assert(occurs_at(k, drop_tail(c, 4), 3));
        },
        Metric::Pressure => {
            reveal_strlit("pressure_avg");
            reveal_strlit("Pressure");
            assert(c.subrange(8, 12) =~= "_avg"@);
            assert(k.subrange(0, 8) =~= drop_tail(c, 4));
            assert(occurs_at(k, drop_tail(c, 4), 0));
        },
        Metric::Humidity => {
            reveal_strlit("humidity_avg");
            reveal_strlit("Humidity");
            assert(c.subrange(8, 12) =~= "_avg"@);
            assert(k.subrange(0, 8) =~= drop_tail(c, 4));
            assert(occurs_at(k, drop_tail(c, 4), 0));
        },
        Metric::SkyTemp => {
            reveal_strlit("sky_avg");
            reveal_strlit("SkyTemp");
            assert(c.subrange(3, 7) =~= "_avg"@);
            assert(k.subrange(0, 3) =~= drop_tail(c, 4));
            assert(occurs_at(k, drop_tail(c, 4), 0));
        },
        Metric::Lux => {
            reveal_strlit("lux_avg");
            reveal_strlit("Lux");
            assert(c.subrange(3, 7) =~= "_avg"@);
            assert(k.subrange(0, 3) =~= drop_tail(c, 4));
            assert(occurs_at(k, drop_tail(c, 4), 0));
        },
        Metric::Wind => {
            reveal_strlit("wind_avg");
            reveal_strlit("Wind");
            assert(c.subrange(4, 8) =~= "_avg"@);
            assert(k.subrange(0, 4) =~= drop_tail(c, 4));
            assert(occurs_at(k, drop_tail(c, 4), 0));
        },
        Metric::Rain => {
            reveal_strlit("rain_avg");
            reveal_strlit("Rain");
            assert(c.subrange(4, 8) =~= "_avg"@);
            assert(k.subrange(0, 4) =~= drop_tail(c, 4));
            assert(occurs_at(k, drop_tail(c, 4), 0));
        },
        Metric::Battery => {
            reveal_strlit("battery_avg");
            reveal_strlit("Battery");
            assert(c.subrange(7, 11) =~= "_avg"@);
            assert(k.subrange(0, 7) =~= drop_tail(c, 4));
            assert(occurs_at(k, drop_tail(c, 4), 0));
        },
        Metric::Solar => {
            reveal_strlit("solar_mv_avg");
            reveal_strlit("solar_ma_avg");
            assert(c.subrange(5, 12) =~= "_mv_avg"@);
            assert(trace_columns(m).1.unwrap().subrange(5, 12) =~= "_ma_avg"@);
            reveal_strlit("Solar");
            assert(k.subrange(0, 5) =~= drop_tail(trace_columns(m).1.unwrap(), 7));
            assert(occurs_at(k, drop_tail(trace_columns(m).1.unwrap(), 7), 0));
            assert(drop_tail(c, 7) =~= drop_tail(trace_columns(m).1.unwrap(), 7));
        },
        Metric::Load => {
            reveal_strlit("batt_mv_avg");
            reveal_strlit("load_ma_avg");
            assert(c.subrange(4, 11) =~= "_mv_avg"@);
            assert(trace_columns(m).1.unwrap().subrange(4, 11) =~= "_ma_avg"@);
            reveal_strlit("Load");
            assert(k.subrange(0, 4) =~= drop_tail(trace_columns(m).1.unwrap(), 7));
            assert(occurs_at(k, drop_tail(trace_columns(m).1.unwrap(), 7), 0));
        },
    }
}

/// Each metric's comparison trace reads the stored columns of that metric:
/// a single-column metric reads an `_avg` column whose stem occurs in its
/// (lower-cased) key, so Pressure reads `pressure_avg` and Humidity reads
/// `humidity_avg`, and no two metrics read the same column; Solar and Load
/// read a millivolt (`_mv_avg`) and a milliampere (`_ma_avg`) column, the
/// current column named after the metric and Solar's voltage taken on the
/// same (solar) rail.
pub proof fn lemma_trace_columns_belong_to_metric(m1: Metric, m2: Metric)
    ensures
        trace_columns(m1).1 is None ==> ends_with(trace_columns(m1).0, "_avg"@) && contains_text(
            lower_text(metric_key(m1)),
            drop_tail(trace_columns(m1).0, 4),
        ),
        trace_columns(m1).1 is Some ==> ends_with(trace_columns(m1).0, "_mv_avg"@) && ends_with(
            trace_columns(m1).1.unwrap(),
            "_ma_avg"@,
        ) && contains_text(lower_text(metric_key(m1)), drop_tail(trace_columns(m1).1.unwrap(), 7)),
        m1 == Metric::Solar ==> drop_tail(trace_columns(m1).0, 7) == drop_tail(
            trace_columns(m1).1.unwrap(),
            7,
        ),
        m1 != m2 && trace_columns(m1).1 is None && trace_columns(m2).1 is None ==> trace_columns(
            m1,
        ).0 != trace_columns(m2).0,
{
    lemma_column_names_metric(m1);
    lemma_column_shape(m1);
    lemma_column_shape(m2);
}

/// The half-open query range of a UTC day starting at `day_start`; the end
/// saturates at `i64::MAX`.
pub fn day_range(day_start: i64) -> (r: (i64, i64))
    ensures
        r.0 == day_start,
        r.1 == if day_start + 86_400 > i64::MAX { i64::MAX as int } else { day_start + 86_400 },
{
    if day_start > i64::MAX - 86_400 {
        (day_start, i64::MAX)
    } else {
        (day_start, day_start + 86_400)
    }
}

} // verus!
