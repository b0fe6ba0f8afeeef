//! The history view's time selection: presets that follow "now", a fixed
//! custom range, and the periodic follow-now advance.

use vstd::prelude::*;

use crate::window::{preset_spec, preset_day, preset_month, preset_week, TimeWindow, SECS_PER_DAY};

verus! {

/// The unix timestamp that chrono parses from a `datetime-local` input value
/// (`%Y-%m-%dT%H:%M`, read as UTC), or `None` when it does not parse.
pub uninterp spec fn datetime_local_ts(s: Seq<char>) -> Option<i64>;

/// Parses a `datetime-local` value with `chrono::NaiveDateTime::parse_from_str`
/// (format `%Y-%m-%dT%H:%M`) and converts the naive time, taken as UTC, to unix
/// seconds (`and_utc().timestamp()`); `None` when parsing fails.
#[verifier::external_body]
fn parse_datetime_local(s: &str) -> (r: Option<i64>)
    ensures
        r == datetime_local_ts(s@),
{
    match chrono::NaiveDateTime::parse_from_str(s, "%Y-%m-%dT%H:%M") {
        Ok(dt) => Some(dt.and_utc().timestamp()),
        Err(_) => None,
    }
}

/// Which preset button was pressed.
#[derive(Clone, Copy, Debug, PartialEq, Eq, Structural)]
pub enum Preset {
    /// Last 24 h.
    Day,
    /// Last 7 days.
    Week,
    /// Last 30 days.
    Month,
}

/// Days covered by a preset.
pub open spec fn preset_days(p: Preset) -> int {
    match p {
        Preset::Day => 1,
        Preset::Week => 7,
        Preset::Month => 30,
    }
}

/// The selected window and whether it follows "now".
#[derive(Clone, Copy, Debug, PartialEq, Eq, Structural)]
pub struct TimeSelection {
    /// The window shown.
    pub window: TimeWindow,
    /// Whether the window is advanced to track "now".
    pub following: bool,
}

/// The selection after a custom range was applied with the parsed bounds:
/// following stops; the window changes only for two parsed bounds in order.
pub open spec fn custom_range_spec(
    sel: TimeSelection,
    from: Option<i64>,
    to: Option<i64>,
) -> TimeSelection {
    match (from, to) {
        (Some(f), Some(t)) => if f < t {
            TimeSelection { window: TimeWindow { from_ts: f, to_ts: t }, following: false }
        } else {
            TimeSelection { window: sel.window, following: false }
        },
        _ => TimeSelection { window: sel.window, following: false },
    }
}

impl TimeSelection {
    /// The default selection: the last 24 h, following "now".
    pub fn new(now: i64) -> (s: Self)
        requires
            now - SECS_PER_DAY >= i64::MIN,
        ensures
            s.window == preset_spec(now as int, 1),
            s.following,
    {
        TimeSelection { window: preset_day(now), following: true }
    }

    /// A preset button was pressed at `now`: show the preset and follow "now".
    pub fn on_preset(&mut self, p: Preset, now: i64)
        requires
            now - 30 * SECS_PER_DAY >= i64::MIN,
        ensures
            final(self).window == preset_spec(now as int, preset_days(p)),
            final(self).following,
    {
        self.following = true;
        self.window = match p {
            Preset::Day => preset_day(now),
            Preset::Week => preset_week(now),
            Preset::Month => preset_month(now),
        };
    }

    /// Apply a custom range whose bounds were already parsed.
    pub fn apply_custom_range(&mut self, from: Option<i64>, to: Option<i64>)
        ensures
            *final(self) == custom_range_spec(*old(self), from, to),
    {
        self.following = false;
        if let (Some(f), Some(t)) = (from, to) {
            if f < t {
                self.window = TimeWindow { from_ts: f, to_ts: t };
            }
        }
    }

    /// The "Appliquer" button: parse the two `datetime-local` inputs and apply
    /// them as a custom range.
    pub fn on_apply(&mut self, from_input: &str, to_input: &str)
        ensures
            *final(self) == custom_range_spec(
                *old(self),
                datetime_local_ts(from_input@),
                datetime_local_ts(to_input@),
            ),
    {
        let from = parse_datetime_local(from_input);
        let to = parse_datetime_local(to_input);
        self.apply_custom_range(from, to);
    }

    /// The periodic follow-now tick at `now`: while following, the window
    /// keeps its span and is moved to end at `now`.
    pub fn on_follow_tick(&mut self, now: i64)
        requires
            old(self).window.span_fits(),
            i64::MIN <= now - (old(self).window.to_ts - old(self).window.from_ts) <= i64::MAX,
        ensures
            old(self).following ==> *final(self) == (TimeSelection {
                window: TimeWindow {
                    from_ts: (now - (old(self).window.to_ts - old(self).window.from_ts)) as i64,
                    to_ts: now,
                },
                following: true,
            }),
            !old(self).following ==> *final(self) == *old(self),
    {
        if self.following {
            let span = self.window.span_secs();
            self.window = TimeWindow { from_ts: now - span, to_ts: now };
        }
    }
}

/// A custom range never stores an empty or inverted window: whenever the
/// selected window changes, it starts strictly before it ends.
pub proof fn lemma_custom_range_nonempty(sel: TimeSelection, from: Option<i64>, to: Option<i64>)
    ensures
        custom_range_spec(sel, from, to).window != sel.window ==> custom_range_spec(
            sel,
            from,
            to,
        ).window.from_ts < custom_range_spec(sel, from, to).window.to_ts,
        !custom_range_spec(sel, from, to).following,
{
}

} // verus!
