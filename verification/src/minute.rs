//! Minute buckets: flooring unix seconds to the start of their minute and
//! deciding when an open bucket must be sealed.

use vstd::prelude::*;

verus! {

/// Smallest value of `i64`, as a mathematical integer.
pub open spec fn i64_min() -> int {
    -0x8000_0000_0000_0000
}

/// The start of the minute holding `t` (Euclidean floor to a multiple of 60).
pub open spec fn minute_start(t: int) -> int {
    t - t % 60
}

/// What `floor_to_minute` returns: the minute start, saturated at `i64::MIN`.
pub open spec fn floor_to_minute_spec(t: int) -> int {
    if minute_start(t) < i64_min() {
        i64_min()
    } else {
        minute_start(t)
    }
}

/// Floor a unix-second timestamp to the start of its minute (the bucket key).
///
/// For every timestamp whose minute start is representable, the result is a
/// multiple of 60 with `result <= unix_secs < result + 60`; the few values at
/// the very bottom of the `i64` range saturate to `i64::MIN`.
pub fn floor_to_minute(unix_secs: i64) -> (r: i64)
    ensures
        r == floor_to_minute_spec(unix_secs as int),
{
    let q = unix_secs % 60;
    let rem: i64 = if q < 0 { q + 60 } else { q };
    assert(rem == (unix_secs as int) % 60);
    if unix_secs < i64::MIN + rem {
        i64::MIN
    } else {
        unix_secs - rem
    }
}

/// Flush decision: `true` exactly when the frame's minute differs from the
/// minute of the currently open bucket.
pub fn should_flush(open_minute: i64, frame_minute: i64) -> (r: bool)
    ensures
        r == (frame_minute != open_minute),
{
    frame_minute != open_minute
}

/// The minute currently collected by the telemetry collector.
///
/// The collector samples the clock on every advertisement and once a second;
/// a minute is sealed (and its bucket stored) only when a real minute
/// boundary is observed.
#[derive(Clone, Copy, Debug, PartialEq, Eq, Structural)]
pub struct MinuteClock {
    /// Start of the open minute (unix seconds).
    pub open_minute: i64,
}

/// The collector's transition for a clock sample: the new open minute and
/// the minute sealed by the sample, if any.
pub open spec fn observe_spec(open_minute: i64, now_secs: i64) -> (i64, Option<i64>) {
    let m = floor_to_minute_spec(now_secs as int) as i64;
    if m != open_minute {
        (m, Some(open_minute))
    } else {
        (open_minute, None)
    }
}

impl MinuteClock {
    /// Open the minute holding `now_secs`.
    pub fn start(now_secs: i64) -> (c: Self)
        ensures
            c.open_minute == floor_to_minute_spec(now_secs as int),
    {
        MinuteClock { open_minute: floor_to_minute(now_secs) }
    }

    /// Sample the clock at `now_secs`. When its minute differs from the open
    /// one, the open minute is sealed (returned, to be stored) and the new
    /// minute is opened; otherwise nothing changes.
    pub fn observe(&mut self, now_secs: i64) -> (sealed: Option<i64>)
        ensures
            (final(self).open_minute, sealed) == observe_spec(old(self).open_minute, now_secs),
    {
        let now_minute = floor_to_minute(now_secs);
        if should_flush(self.open_minute, now_minute) {
            let sealed = self.open_minute;
            self.open_minute = now_minute;
            Some(sealed)
        } else {
            None
        }
    }
}

/// After any sample the open minute is the sample's minute, a sealed minute
/// is never the one just opened, and sampling the same instant again seals
/// nothing.
pub proof fn lemma_observe_settles(open_minute: i64, now_secs: i64)
    ensures
        observe_spec(open_minute, now_secs).0 == floor_to_minute_spec(now_secs as int),
        observe_spec(open_minute, now_secs).1 matches Some(m) ==> m != observe_spec(
            open_minute,
            now_secs,
        ).0,
        observe_spec(observe_spec(open_minute, now_secs).0, now_secs).1 is None,
{
    let f = floor_to_minute_spec(now_secs as int);
    assert(i64::MIN <= f <= i64::MAX) by {
        if minute_start(now_secs as int) >= i64_min() {
            lemma_floor_to_minute_bounds(now_secs);
        }
    }
}

/// Flooring is idempotent: flooring an already floored timestamp changes
/// nothing, for every `i64` (saturated values included).
pub proof fn lemma_floor_to_minute_idempotent(t: i64)
    ensures
        floor_to_minute_spec(floor_to_minute_spec(t as int)) == floor_to_minute_spec(t as int),
{
    let f = floor_to_minute_spec(t as int);
    if minute_start(t as int) >= i64_min() {
        assert(f % 60 == 0) by (nonlinear_arith)
            requires
                f == t - t % 60,
        ;
    } else {
        assert(f == i64_min());
        assert(i64_min() % 60 == 52);
    }
}

/// Wherever the minute start is representable, the floor is a multiple of 60
/// and the timestamp lies in the half-open minute `[floor, floor + 60)`.
pub proof fn lemma_floor_to_minute_bounds(t: i64)
    requires
        minute_start(t as int) >= i64_min(),
    ensures
        floor_to_minute_spec(t as int) % 60 == 0,
        floor_to_minute_spec(t as int) <= t,
        t < floor_to_minute_spec(t as int) + 60,
{
    let f = floor_to_minute_spec(t as int);
    assert(f % 60 == 0) by (nonlinear_arith)
        requires
            f == t - t % 60,
    ;
}

} // verus!
