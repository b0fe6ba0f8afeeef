//! Live-link indicator of the web dashboard: a small state machine driven by
//! incoming frames and a one-second clock tick, and its badge texts.

use vstd::prelude::*;

verus! {

/// Milliseconds without a frame after which the live link reads as stale.
pub const LIVE_STALE_MS: u64 = 5_000;

/// Reception quality of the live BLE broadcast.
#[derive(Clone, Copy, Debug, PartialEq, Eq, Structural)]
pub enum SignalLevel {
    /// No frame has ever been received.
    NoSignal,
    /// Last frame received within the staleness limit.
    Live,
    /// Last frame older than the staleness limit.
    Stale,
}

/// State of the live indicator: the shown level and the reception time of the
/// last frame, in milliseconds since the epoch.
#[derive(Clone, Copy, Debug, PartialEq, Eq, Structural)]
pub struct LiveTracker {
    /// Level currently shown.
    pub level: SignalLevel,
    /// Reception time of the last frame, if any.
    pub last_rx_ms: Option<u64>,
}

impl LiveTracker {
    /// No frame yet.
    pub fn new() -> (t: Self)
        ensures
            t.level == SignalLevel::NoSignal,
            t.last_rx_ms is None,
    {
        LiveTracker { level: SignalLevel::NoSignal, last_rx_ms: None }
    }

    /// A frame arrived at `now_ms`: the link is live.
    pub fn on_frame(&mut self, now_ms: u64)
        ensures
            final(self).level == SignalLevel::Live,
            final(self).last_rx_ms == Some(now_ms),
    {
        self.level = SignalLevel::Live;
        self.last_rx_ms = Some(now_ms);
    }

    /// The clock ticked at `now_ms`: more than five seconds after the last
    /// frame the link turns stale; otherwise nothing changes.
    pub fn on_tick(&mut self, now_ms: u64)
        ensures
            final(self).last_rx_ms == old(self).last_rx_ms,
            match old(self).last_rx_ms {
                Some(t) => if now_ms - t > LIVE_STALE_MS {
                    final(self).level == SignalLevel::Stale
                } else {
                    final(self).level == old(self).level
                },
                None => final(self).level == old(self).level,
            },
    {
        if let Some(t) = self.last_rx_ms {
            if now_ms > t && now_ms - t > LIVE_STALE_MS {
                self.level = SignalLevel::Stale;
            }
        }
    }
}

/// Only frames make the link live: a tick never turns a non-live level live,
/// and a tick within five seconds of the last frame keeps a live level live.
pub proof fn lemma_tick_never_revives(before: LiveTracker, after: LiveTracker, now_ms: u64)
    requires
        after.last_rx_ms == before.last_rx_ms,
        match before.last_rx_ms {
            Some(t) => if now_ms - t > LIVE_STALE_MS {
                after.level == SignalLevel::Stale
            } else {
                after.level == before.level
            },
            None => after.level == before.level,
        },
    ensures
        after.level == SignalLevel::Live ==> before.level == SignalLevel::Live,
        (before.level == SignalLevel::Live && before.last_rx_ms is Some
            && now_ms - before.last_rx_ms.unwrap() <= LIVE_STALE_MS) ==> after.level
            == SignalLevel::Live,
{
}

/// Badge text of a level.
pub open spec fn badge_label_spec(l: SignalLevel) -> Seq<char> {
    match l {
        SignalLevel::Live => "En direct"@,
        SignalLevel::Stale => "Obsolète"@,
        SignalLevel::NoSignal => "Hors-ligne"@,
    }
}

/// Badge text of a level.
pub fn badge_label(l: SignalLevel) -> (s: &'static str)
    ensures
        s@ == badge_label_spec(l),
{
    match l {
        SignalLevel::Live => "En direct",
        SignalLevel::Stale => "Obsolète",
        SignalLevel::NoSignal => "Hors-ligne",
    }
}

/// CSS class list of a level's badge.
pub open spec fn badge_class_spec(l: SignalLevel) -> Seq<char> {
    match l {
        SignalLevel::Live => "signal-badge signal-live"@,
        SignalLevel::Stale => "signal-badge signal-stale"@,
        SignalLevel::NoSignal => "signal-badge signal-offline"@,
    }
}

/// CSS class list of a level's badge.
pub fn badge_class(l: SignalLevel) -> (s: &'static str)
    ensures
        s@ == badge_class_spec(l),
{
    match l {
        SignalLevel::Live => "signal-badge signal-live",
        SignalLevel::Stale => "signal-badge signal-stale",
        SignalLevel::NoSignal => "signal-badge signal-offline",
    }
}

} // verus!
