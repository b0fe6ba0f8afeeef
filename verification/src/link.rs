//! Link state of the dashboard: the latest frame, link liveness and the
//! per-device-second de-duplication of repeated advertisements.

use vstd::prelude::*;

use crate::clock::{elapsed_nanos, Moment, Span, NANOS_PER_SEC};
use crate::model::{signal_state_spec, SignalState};

verus! {

/// How long without a frame before values are considered cosmetically stale.
pub const STALE_AFTER_SECS: u64 = 5;

/// Fallback station name displayed when the advertisement carries no alias.
pub const STATION_DEFAULT: &'static str = "MeteoStation";

/// Data carried by a [`BleEvent::Frame`] event.
pub struct FrameEvent<T> {
    /// Decoded telemetry frame.
    pub telemetry: T,
    /// RSSI of the advertisement, if the adapter reported it.
    pub rssi: Option<i16>,
    /// Alias (advertised name) of the station, if available.
    pub station: Option<String>,
}

impl<T> FrameEvent<T> {
    /// A frame event whose `rssi` and `station` are absent.
    pub fn new(telemetry: T) -> (e: Self)
        ensures
            e.telemetry == telemetry,
            e.rssi is None,
            e.station is None,
    {
        FrameEvent { telemetry, rssi: None, station: None }
    }
}

/// Events pushed to the app loop by the BLE task.
pub enum BleEvent<T> {
    /// A well-formed telemetry frame arrived via advertisement.
    Frame(FrameEvent<T>),
}

/// Render-time link state of the dashboard.
pub struct AppState<T> {
    /// Most-recently decoded telemetry frame.
    pub latest: T,
    /// Instant of the last successfully decoded frame, if any.
    pub last_frame_at: Option<Moment>,
    /// Latest advertised RSSI (dBm), updated on every event carrying one.
    pub rssi: Option<i16>,
    /// Alias of the station, updated on every event carrying one.
    pub station: Option<String>,
    /// Number of distinct frames (by device uptime) received this session.
    pub frame_count: u64,
    /// Device uptime of the last distinct frame counted (the de-duplication key).
    pub last_uptime_s: Option<u32>,
    /// Session start, the origin of chart timestamps.
    pub started: Moment,
}

/// `x + 1`, saturated at `u64::MAX`.
pub open spec fn saturating_inc(x: u64) -> u64 {
    if x < u64::MAX {
        (x + 1) as u64
    } else {
        u64::MAX
    }
}

/// `new` when present, else `old`.
pub open spec fn keep_latest<V>(old: Option<V>, new: Option<V>) -> Option<V> {
    match new {
        Some(v) => Some(v),
        None => old,
    }
}

impl<T> AppState<T> {
    /// A fresh state anchored at `now` (the session start), holding `empty`
    /// as the initial frame.
    pub fn new(now: Moment, empty: T) -> (s: Self)
        ensures
            s.latest == empty,
            s.last_frame_at is None,
            s.rssi is None,
            s.station is None,
            s.frame_count == 0,
            s.last_uptime_s is None,
            s.started == now,
    {
        AppState {
            latest: empty,
            last_frame_at: None,
            rssi: None,
            station: None,
            frame_count: 0,
            last_uptime_s: None,
            started: now,
        }
    }

    /// Reduce one BLE event into state; `uptime_s` is the device uptime the
    /// frame carries.
    ///
    /// The instantaneous fields (`latest`, `last_frame_at`, `rssi`, `station`)
    /// change on every event. A frame repeating the previous device-second is
    /// a duplicate advertisement: it returns `None` and leaves the count and
    /// the de-duplication key alone. A new device-second is counted and
    /// returns the time since session start, the x coordinate at which its
    /// values enter the charts.
    pub fn apply(&mut self, ev: BleEvent<T>, uptime_s: u32, now: Moment) -> (at: Option<Span>)
        ensures
            ({
                let BleEvent::Frame(fe) = ev;
                &&& final(self).latest == fe.telemetry
                &&& final(self).rssi == keep_latest(old(self).rssi, fe.rssi)
                &&& final(self).station == keep_latest(old(self).station, fe.station)
            }),
            final(self).last_frame_at == Some(now),
            final(self).started == old(self).started,
            old(self).last_uptime_s == Some(uptime_s) ==> {
                &&& at is None
                &&& final(self).frame_count == old(self).frame_count
                &&& final(self).last_uptime_s == old(self).last_uptime_s
            },
            old(self).last_uptime_s != Some(uptime_s) ==> {
                &&& at == Some(Span { nanos: elapsed_nanos(now, old(self).started) as u64 })
                &&& final(self).frame_count == saturating_inc(old(self).frame_count)
                &&& final(self).last_uptime_s == Some(uptime_s)
            },
    {
        let BleEvent::Frame(fe) = ev;
        if let Some(r) = fe.rssi {
            self.rssi = Some(r);
        }
        if let Some(s) = fe.station {
            self.station = Some(s);
        }
        self.latest = fe.telemetry;
        self.last_frame_at = Some(now);
        if self.last_uptime_s == Some(uptime_s) {
            return None;
        }
        self.last_uptime_s = Some(uptime_s);
        if self.frame_count < u64::MAX {
            self.frame_count = self.frame_count + 1;
        }
        Some(now.duration_since(self.started))
    }

    /// The current [`SignalState`], from the age of the last received frame
    /// against the five-second staleness limit.
    pub fn signal_state(&self, now: Moment) -> (s: SignalState)
        ensures
            s == signal_state_spec(
                self.last_frame_at,
                now,
                Span { nanos: (STALE_AFTER_SECS * NANOS_PER_SEC) as u64 },
            ),
    {
        SignalState::from_age(self.last_frame_at, now, Span::from_secs(STALE_AFTER_SECS))
    }

    /// `true` when no frame has arrived, or the last one is older than `max_age`.
    pub fn is_stale(&self, now: Moment, max_age: Span) -> (b: bool)
        ensures
            b == match self.last_frame_at {
                None => true,
                Some(t) => elapsed_nanos(now, t) > max_age.nanos,
            },
    {
        match self.last_frame_at {
            None => true,
            Some(t) => now.duration_since(t).as_nanos() > max_age.as_nanos(),
        }
    }
}

/// Right after a frame is applied at `now`, the link reads as live at `now`,
/// for any staleness limit.
pub proof fn lemma_fresh_frame_is_live(now: Moment, stale_after: Span)
    ensures
        signal_state_spec(Some(now), now, stale_after) == SignalState::Live,
{
}

/// The cosmetic staleness flag and the signal state agree: with the same
/// limit, a state is stale (or never seen) exactly when it is not live.
pub proof fn lemma_stale_iff_not_live(last: Option<Moment>, now: Moment, limit: Span)
    ensures
        (match last {
            None => true,
            Some(t) => elapsed_nanos(now, t) > limit.nanos,
        }) <==> signal_state_spec(last, now, limit) != SignalState::Live,
{
}

} // verus!
