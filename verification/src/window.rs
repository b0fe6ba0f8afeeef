//! Time windows for the history views: presets, the span → bucket ladder,
//! and the seconds-of-day offset of a stored bucket.

use vstd::prelude::*;

verus! {

/// Seconds in one day.
pub const SECS_PER_DAY: i64 = 86_400;

/// A half-open time window `[from_ts, to_ts)` in Unix seconds.
#[derive(Clone, Copy, Debug, PartialEq, Eq, Structural)]
pub struct TimeWindow {
    /// Start of the window (inclusive), Unix seconds.
    pub from_ts: i64,
    /// End of the window (exclusive), Unix seconds.
    pub to_ts: i64,
}

/// Query parameters for a history request: the range and the re-aggregation
/// width, which must be positive.
#[derive(Clone, Copy, Debug, PartialEq, Eq, Structural)]
pub struct HistoryQuery {
    /// Inclusive start unix timestamp (seconds).
    pub from_ts: i64,
    /// Exclusive end unix timestamp (seconds).
    pub to_ts: i64,
    /// Re-aggregation window width in seconds (e.g. 3600 for hourly buckets).
    pub bucket_secs: i64,
}

/// The bucket width chosen for a span: 1 min up to 2 days, 5 min up to
/// 2 weeks, 30 min up to 92 days, 1 h up to 366 days, 1 day beyond.
pub open spec fn bucket_for_span(s: int) -> int {
    if s <= 2 * 86_400 {
        60
    } else if s <= 14 * 86_400 {
        300
    } else if s <= 92 * 86_400 {
        1_800
    } else if s <= 366 * 86_400 {
        3_600
    } else {
        86_400
    }
}

impl TimeWindow {
    /// The window's length `to_ts - from_ts` fits an `i64`.
    pub open spec fn span_fits(self) -> bool {
        i64::MIN <= self.to_ts - self.from_ts <= i64::MAX
    }

    /// Length of the window in seconds.
    pub fn span_secs(&self) -> (s: i64)
        requires
            self.span_fits(),
        ensures
            s == self.to_ts - self.from_ts,
    {
        self.to_ts - self.from_ts
    }

    /// Bucket size for query-time aggregation (span → bucket ladder), chosen
    /// so that no span up to a year yields more than 8 784 rows.
    pub fn bucket_secs(&self) -> (b: i64)
        requires
            self.span_fits(),
        ensures
            b == bucket_for_span(self.to_ts - self.from_ts),
    {
        let s = self.span_secs();
        if s <= 2 * 86_400 {
            60
        } else if s <= 14 * 86_400 {
            300
        } else if s <= 92 * 86_400 {
            1_800
        } else if s <= 366 * 86_400 {
            3_600
        } else {
            86_400
        }
    }

    /// The window moved by `shift` seconds (positive = forward in time), as
    /// panning does; the span is unchanged.
    pub fn shifted(&self, shift: i64) -> (w: TimeWindow)
        requires
            i64::MIN <= self.from_ts + shift <= i64::MAX,
            i64::MIN <= self.to_ts + shift <= i64::MAX,
        ensures
            w.from_ts == self.from_ts + shift,
            w.to_ts == self.to_ts + shift,
            w.to_ts - w.from_ts == self.to_ts - self.from_ts,
    {
        TimeWindow { from_ts: self.from_ts + shift, to_ts: self.to_ts + shift }
    }
}

/// The window of the last `days` days ending at `now`.
pub open spec fn preset_spec(now: int, days: int) -> TimeWindow {
    TimeWindow { from_ts: (now - days * 86_400) as i64, to_ts: now as i64 }
}

/// Last 24 h ending at `now`.
pub fn preset_day(now: i64) -> (w: TimeWindow)
    requires
        now - SECS_PER_DAY >= i64::MIN,
    ensures
        w == preset_spec(now as int, 1),
{
    TimeWindow { from_ts: now - SECS_PER_DAY, to_ts: now }
}

/// Last 7 days ending at `now`.
pub fn preset_week(now: i64) -> (w: TimeWindow)
    requires
        now - 7 * SECS_PER_DAY >= i64::MIN,
    ensures
        w == preset_spec(now as int, 7),
{
    TimeWindow { from_ts: now - 7 * SECS_PER_DAY, to_ts: now }
}

/// Last 30 days ending at `now`.
pub fn preset_month(now: i64) -> (w: TimeWindow)
    requires
        now - 30 * SECS_PER_DAY >= i64::MIN,
    ensures
        w == preset_spec(now as int, 30),
{
    TimeWindow { from_ts: now - 30 * SECS_PER_DAY, to_ts: now }
}

/// `x` clamped into the `i64` range.
pub open spec fn saturate_i64(x: int) -> int {
    if x < i64::MIN {
        i64::MIN as int
    } else if x > i64::MAX {
        i64::MAX as int
    } else {
        x
    }
}

/// Offset of `ts` from `day_start`, saturated to `i64`, or 86 400 when the
/// offset does not fit an `i32`.
pub open spec fn secs_in_day_spec(ts: int, day_start: int) -> int {
    let d = saturate_i64(ts - day_start);
    if i32::MIN <= d <= i32::MAX {
        d
    } else {
        86_400
    }
}

/// Seconds elapsed from `day_start` to the bucket `ts` (the x coordinate of a
/// comparison trace point).
pub fn secs_in_day(ts: i64, day_start: i64) -> (r: i32)
    ensures
        r == secs_in_day_spec(ts as int, day_start as int),
{
    let diff: i64 = if day_start < 0 && ts > i64::MAX + day_start {
        i64::MAX
    } else if day_start > 0 && ts < i64::MIN + day_start {
        i64::MIN
    } else {
        ts - day_start
    };
    if i32::MIN as i64 <= diff && diff <= i32::MAX as i64 {
        diff as i32
    } else {
        86_400
    }
}

/// The ladder never shrinks the bucket for a longer span, always yields a
/// positive width that divides a day, and keeps any span of at most 366 days
/// to at most 8 784 rows.
pub proof fn lemma_bucket_ladder(s1: int, s2: int)
    ensures
        s1 <= s2 ==> bucket_for_span(s1) <= bucket_for_span(s2),
        bucket_for_span(s1) > 0,
        86_400int % bucket_for_span(s1) == 0,
        0 <= s1 <= 366 * 86_400 ==> s1 / bucket_for_span(s1) <= 8_784,
{
    let b = bucket_for_span(s1);
    assert(86_400int % 60 == 0 && 86_400int % 300 == 0 && 86_400int % 1_800 == 0
        && 86_400int % 3_600 == 0 && 86_400int % 86_400 == 0);
    if 0 <= s1 <= 366 * 86_400 {
        assert(s1 / b <= 8_784) by (nonlinear_arith)
            requires
                b == bucket_for_span(s1),
                0 <= s1 <= 366 * 86_400,
                s1 <= 2 * 86_400 ==> b == 60,
                2 * 86_400 < s1 <= 14 * 86_400 ==> b == 300,
                14 * 86_400 < s1 <= 92 * 86_400 ==> b == 1_800,
                92 * 86_400 < s1 ==> b == 3_600,
        ;
    }
}

/// The bucket is the finest step of the ladder 1 min, 5 min, 30 min, 1 h
/// whose row count stays within that step's cap (2 880, 4 032, 4 416 and
/// 8 784 rows, i.e. spans of 2, 14, 92 and 366 days); longer spans use daily
/// buckets. A finer step would exceed its cap, a coarser one is never chosen
/// while a finer one fits.
pub proof fn lemma_bucket_finest_within_cap(s: int)
    ensures
        s <= 2_880 * 60 <==> bucket_for_span(s) == 60,
        2_880 * 60 < s <= 4_032 * 300 <==> bucket_for_span(s) == 300,
        4_032 * 300 < s <= 4_416 * 1_800 <==> bucket_for_span(s) == 1_800,
        4_416 * 1_800 < s <= 8_784 * 3_600 <==> bucket_for_span(s) == 3_600,
        8_784 * 3_600 < s <==> bucket_for_span(s) == 86_400,
        s <= 8_784 * 3_600 ==> s <= 8_784 * bucket_for_span(s),
{
}

/// The presets are read at the ladder's three finest steps: the day in
/// 1-minute, the week in 5-minute and the 30-day month in 30-minute buckets.
pub proof fn lemma_preset_buckets(now: i64)
    requires
        now - 30 * 86_400 >= i64::MIN,
    ensures
        bucket_for_span(preset_spec(now as int, 1).to_ts - preset_spec(now as int, 1).from_ts)
            == 60,
        bucket_for_span(preset_spec(now as int, 7).to_ts - preset_spec(now as int, 7).from_ts)
            == 300,
        bucket_for_span(preset_spec(now as int, 30).to_ts - preset_spec(now as int, 30).from_ts)
            == 1_800,
{
    lemma_presets_span(now);
    lemma_bucket_finest_within_cap(86_400int);
    lemma_bucket_finest_within_cap(7 * 86_400int);
    lemma_bucket_finest_within_cap(30 * 86_400int);
}

/// Each preset ends at `now` and spans exactly its number of days.
pub proof fn lemma_presets_span(now: i64)
    requires
        now - 30 * 86_400 >= i64::MIN,
    ensures
        preset_spec(now as int, 1).to_ts == now,
        preset_spec(now as int, 1).to_ts - preset_spec(now as int, 1).from_ts == 86_400,
        preset_spec(now as int, 7).to_ts - preset_spec(now as int, 7).from_ts == 7 * 86_400,
        preset_spec(now as int, 30).to_ts - preset_spec(now as int, 30).from_ts == 30 * 86_400,
{
}

} // verus!
