//! Monotonic instants and spans in nanoseconds.
//!
//! The dashboards timestamp frames with a monotonic clock; the logic only ever
//! reads the elapsed time between two instants, so both are kept as plain
//! nanosecond counts.

use vstd::prelude::*;

verus! {

/// A point on a monotonic clock, in nanoseconds since an arbitrary origin.
#[derive(Clone, Copy, Debug, PartialEq, Eq, Structural)]
pub struct Moment {
    /// Nanoseconds since the clock's origin.
    pub nanos: u64,
}

/// A non-negative length of time, in nanoseconds.
#[derive(Clone, Copy, Debug, PartialEq, Eq, Structural)]
pub struct Span {
    /// Length in nanoseconds.
    pub nanos: u64,
}

/// Nanoseconds per second.
pub const NANOS_PER_SEC: u64 = 1_000_000_000;

/// Nanoseconds per millisecond.
pub const NANOS_PER_MILLI: u64 = 1_000_000;

/// Elapsed nanoseconds from `earlier` to `later`, zero when `earlier` is later.
pub open spec fn elapsed_nanos(later: Moment, earlier: Moment) -> nat {
    if later.nanos >= earlier.nanos {
        (later.nanos - earlier.nanos) as nat
    } else {
        0
    }
}

impl Span {
    /// The empty span.
    pub fn zero() -> (s: Span)
        ensures
            s.nanos == 0,
    {
        Span { nanos: 0 }
    }

    /// A span of `secs` whole seconds.
    pub fn from_secs(secs: u64) -> (s: Span)
        requires
            secs * NANOS_PER_SEC <= u64::MAX,
        ensures
            s.nanos == secs * NANOS_PER_SEC,
    {
        Span { nanos: secs * NANOS_PER_SEC }
    }

    /// A span of `millis` milliseconds.
    pub fn from_millis(millis: u64) -> (s: Span)
        requires
            millis * NANOS_PER_MILLI <= u64::MAX,
        ensures
            s.nanos == millis * NANOS_PER_MILLI,
    {
        Span { nanos: millis * NANOS_PER_MILLI }
    }

    /// A span of `nanos` nanoseconds.
    pub fn from_nanos(nanos: u64) -> (s: Span)
        ensures
            s.nanos == nanos,
    {
        Span { nanos }
    }

    /// Length in nanoseconds.
    pub fn as_nanos(&self) -> (n: u64)
        ensures
            n == self.nanos,
    {
        self.nanos
    }

    /// Whole seconds in this span (truncated).
    pub fn as_secs(&self) -> (n: u64)
        ensures
            n == self.nanos / NANOS_PER_SEC,
    {
        self.nanos / NANOS_PER_SEC
    }
}

impl Moment {
    /// The instant `nanos` nanoseconds after the clock's origin.
    pub fn from_nanos(nanos: u64) -> (m: Moment)
        ensures
            m.nanos == nanos,
    {
        Moment { nanos }
    }

    /// Nanoseconds since the clock's origin.
    pub fn as_nanos(&self) -> (n: u64)
        ensures
            n == self.nanos,
    {
        self.nanos
    }

    /// Time elapsed from `earlier` to `self`, or zero if `earlier` is later.
    pub fn duration_since(&self, earlier: Moment) -> (s: Span)
        ensures
            s.nanos == elapsed_nanos(*self, earlier),
    {
        if self.nanos >= earlier.nanos {
            Span { nanos: self.nanos - earlier.nanos }
        } else {
            Span { nanos: 0 }
        }
    }

    /// The instant `span` after `self`.
    pub fn plus(&self, span: Span) -> (m: Moment)
        requires
            self.nanos + span.nanos <= u64::MAX,
        ensures
            m.nanos == self.nanos + span.nanos,
    {
        Moment { nanos: self.nanos + span.nanos }
    }
}

} // verus!
