//! One connection cycle of the terminal dashboard's BLE feed, as a state
//! machine that the caller drives: scan, connect unless already connected,
//! find the measurement characteristic, announce the link, pump
//! notifications, tear down, announce the disconnect.
//!
//! The cached device entry is dropped only when it proved unusable (no
//! measurement characteristic) or on shutdown; a mid-session drop keeps it so
//! that the next scan reconnects without cache churn.

use vstd::prelude::*;

verus! {

/// Where the cycle stands.
#[derive(Clone, Copy, Debug, PartialEq, Eq, Structural)]
pub enum ConnPhase {
    /// Waiting for the scan to find the station.
    Scanning,
    /// Waiting to learn whether the device is already connected.
    CheckingLink,
    /// Waiting for the connection attempt.
    Connecting,
    /// Waiting for the characteristic lookup.
    Resolving,
    /// Waiting for the "connected" notice to reach the UI.
    Announcing,
    /// Waiting for the notification pump to end.
    Pumping,
    /// Waiting for the teardown; `then` holds the pump's outcome when the
    /// teardown follows pumping.
    TearingDown { then: Option<bool> },
    /// Waiting for the "disconnected" notice; `ok` is the pump's outcome.
    Reporting { ok: bool },
    /// The cycle is over, successfully or not.
    Finished { ok: bool },
}

/// What the caller is asked to do next.
#[derive(Clone, Copy, Debug, PartialEq, Eq, Structural)]
pub enum ConnAction {
    /// Scan until a present device named like the station appears.
    Scan,
    /// Ask whether the device is already connected.
    QueryConnected,
    /// Connect to the device.
    Connect,
    /// Look up the measurement characteristic.
    FindCharacteristic,
    /// Tell the UI that the link is up.
    AnnounceConnected,
    /// Subscribe and forward notifications until the link or the UI ends.
    Pump,
    /// Disconnect, and drop the cached device entry when `remove` is set.
    Teardown { remove: bool },
    /// Tell the UI that the link is down.
    AnnounceDisconnected,
    /// End the cycle with success (`ok`) or with an error; the caller rescans
    /// either way.
    Finish { ok: bool },
}

/// What came of the last action.
#[derive(Clone, Copy, Debug, PartialEq, Eq, Structural)]
pub enum ConnEvent {
    /// The scan or the lookup found what it looked for.
    Found,
    /// The scan ended without a device (shutdown or end of the discovery
    /// stream), or the lookup found no such characteristic.
    Absent,
    /// The answer to a yes/no query.
    Answer(bool),
    /// The action completed.
    Done,
    /// The UI channel is closed.
    Closed,
    /// The Bluetooth stack reported an error.
    Failed,
    /// The pump ended, successfully (`ok`) or not; `shutdown` tells whether
    /// shutdown had been requested by then.
    Ended { ok: bool, shutdown: bool },
}

/// The events that the action awaited in `p` can produce. Teardowns and the
/// disconnect notice are best-effort: whatever they report is taken as done.
pub open spec fn conn_event_fits(p: ConnPhase, ev: ConnEvent) -> bool {
    match p {
        ConnPhase::Scanning => ev == ConnEvent::Found || ev == ConnEvent::Absent || ev
            == ConnEvent::Failed,
        ConnPhase::CheckingLink => ev is Answer || ev == ConnEvent::Failed,
        ConnPhase::Connecting => ev == ConnEvent::Done || ev == ConnEvent::Failed,
        ConnPhase::Resolving => ev == ConnEvent::Found || ev == ConnEvent::Absent || ev
            == ConnEvent::Failed,
        ConnPhase::Announcing => ev == ConnEvent::Done || ev == ConnEvent::Closed,
        ConnPhase::Pumping => ev is Ended,
        _ => true,
    }
}

/// End of the cycle with outcome `ok`.
pub open spec fn finish(ok: bool) -> (ConnPhase, ConnAction) {
    (ConnPhase::Finished { ok }, ConnAction::Finish { ok })
}

/// The first phase and action of a cycle.
pub open spec fn conn_start_spec() -> (ConnPhase, ConnAction) {
    (ConnPhase::Scanning, ConnAction::Scan)
}

/// The next phase and action, given what came of the last action.
pub open spec fn conn_step_spec(p: ConnPhase, ev: ConnEvent) -> (ConnPhase, ConnAction) {
    match p {
        ConnPhase::Scanning => match ev {
            ConnEvent::Found => (ConnPhase::CheckingLink, ConnAction::QueryConnected),
            ConnEvent::Absent => finish(true),
            _ => finish(false),
        },
        ConnPhase::CheckingLink => match ev {
            ConnEvent::Answer(true) => (ConnPhase::Resolving, ConnAction::FindCharacteristic),
            ConnEvent::Answer(false) => (ConnPhase::Connecting, ConnAction::Connect),
            _ => finish(false),
        },
        ConnPhase::Connecting => match ev {
            ConnEvent::Done => (ConnPhase::Resolving, ConnAction::FindCharacteristic),
            _ => finish(false),
        },
        ConnPhase::Resolving => match ev {
            ConnEvent::Found => (ConnPhase::Announcing, ConnAction::AnnounceConnected),
            ConnEvent::Absent => (
                ConnPhase::TearingDown { then: None },
                ConnAction::Teardown { remove: true },
            ),
            _ => finish(false),
        },
        ConnPhase::Announcing => match ev {
            ConnEvent::Done => (ConnPhase::Pumping, ConnAction::Pump),
            _ => finish(true),
        },
        ConnPhase::Pumping => match ev {
            ConnEvent::Ended { ok, shutdown } => (
                ConnPhase::TearingDown { then: Some(ok) },
                ConnAction::Teardown { remove: shutdown },
            ),
            _ => finish(false),
        },
        ConnPhase::TearingDown { then } => match then {
            None => finish(true),
            Some(ok) => (ConnPhase::Reporting { ok }, ConnAction::AnnounceDisconnected),
        },
        ConnPhase::Reporting { ok } => finish(ok),
        ConnPhase::Finished { ok } => finish(ok),
    }
}

/// The first phase and action of a cycle: scan.
pub fn conn_start() -> (r: (ConnPhase, ConnAction))
    ensures
        r == conn_start_spec(),
{
    (ConnPhase::Scanning, ConnAction::Scan)
}

/// The next phase and action after `p`, given what came of the last action.
pub fn conn_step(p: ConnPhase, ev: ConnEvent) -> (r: (ConnPhase, ConnAction))
    requires
        conn_event_fits(p, ev),
    ensures
        r == conn_step_spec(p, ev),
{
    match p {
        ConnPhase::Scanning => match ev {
            ConnEvent::Found => (ConnPhase::CheckingLink, ConnAction::QueryConnected),
            ConnEvent::Absent => (ConnPhase::Finished { ok: true }, ConnAction::Finish { ok: true }),
            _ => (ConnPhase::Finished { ok: false }, ConnAction::Finish { ok: false }),
        },
        ConnPhase::CheckingLink => match ev {
            ConnEvent::Answer(true) => (ConnPhase::Resolving, ConnAction::FindCharacteristic),
            ConnEvent::Answer(false) => (ConnPhase::Connecting, ConnAction::Connect),
            _ => (ConnPhase::Finished { ok: false }, ConnAction::Finish { ok: false }),
        },
        ConnPhase::Connecting => match ev {
            ConnEvent::Done => (ConnPhase::Resolving, ConnAction::FindCharacteristic),
            _ => (ConnPhase::Finished { ok: false }, ConnAction::Finish { ok: false }),
        },
        ConnPhase::Resolving => match ev {
            ConnEvent::Found => (ConnPhase::Announcing, ConnAction::AnnounceConnected),
            ConnEvent::Absent => (
                ConnPhase::TearingDown { then: None },
                ConnAction::Teardown { remove: true },
            ),
            _ => (ConnPhase::Finished { ok: false }, ConnAction::Finish { ok: false }),
        },
        ConnPhase::Announcing => match ev {
            ConnEvent::Done => (ConnPhase::Pumping, ConnAction::Pump),
            _ => (ConnPhase::Finished { ok: true }, ConnAction::Finish { ok: true }),
        },
        ConnPhase::Pumping => match ev {
            ConnEvent::Ended { ok, shutdown } => (
                ConnPhase::TearingDown { then: Some(ok) },
                ConnAction::Teardown { remove: shutdown },
            ),
            _ => (ConnPhase::Finished { ok: false }, ConnAction::Finish { ok: false }),
        },
        ConnPhase::TearingDown { then } => match then {
            None => (ConnPhase::Finished { ok: true }, ConnAction::Finish { ok: true }),
            Some(ok) => (ConnPhase::Reporting { ok }, ConnAction::AnnounceDisconnected),
        },
        ConnPhase::Reporting { ok } => (ConnPhase::Finished { ok }, ConnAction::Finish { ok }),
        ConnPhase::Finished { ok } => (ConnPhase::Finished { ok }, ConnAction::Finish { ok }),
    }
}

/// The cached device entry is dropped exactly when the device lacks the
/// measurement characteristic, or when shutdown was requested by the time the
/// pump ended.
pub proof fn lemma_teardown_removes_only_unusable_or_on_shutdown(p: ConnPhase, ev: ConnEvent)
    requires
        conn_event_fits(p, ev),
        conn_step_spec(p, ev).1 is Teardown,
    ensures
        match ev {
            ConnEvent::Ended { shutdown, .. } => p == ConnPhase::Pumping && conn_step_spec(p, ev).1
                == (ConnAction::Teardown { remove: shutdown }),
            _ => p == ConnPhase::Resolving && ev == ConnEvent::Absent && conn_step_spec(p, ev).1
                == (ConnAction::Teardown { remove: true }),
        },
{
}

/// A connection attempt is made only for a device that is not already
/// connected.
pub proof fn lemma_connect_only_when_disconnected(p: ConnPhase, ev: ConnEvent)
    requires
        conn_step_spec(p, ev).1 == ConnAction::Connect,
    ensures
        p == ConnPhase::CheckingLink,
        ev == ConnEvent::Answer(false),
{
}

/// A Bluetooth error before pumping ends the cycle at once with an error,
/// without teardown.
pub proof fn lemma_early_failure_is_error(p: ConnPhase)
    requires
        p == ConnPhase::Scanning || p == ConnPhase::CheckingLink || p == ConnPhase::Connecting
            || p == ConnPhase::Resolving,
    ensures
        conn_step_spec(p, ConnEvent::Failed) == finish(false),
{
}

/// Once the pump has ended, the cycle tears down, tells the UI that the link
/// is down and ends with the pump's outcome, whatever the teardown and the
/// notice report.
pub proof fn lemma_pump_outcome_is_returned(ok: bool, shutdown: bool, e1: ConnEvent, e2: ConnEvent)
    ensures
        ({
            let (p1, a1) = conn_step_spec(ConnPhase::Pumping, ConnEvent::Ended { ok, shutdown });
            let (p2, a2) = conn_step_spec(p1, e1);
            let (p3, a3) = conn_step_spec(p2, e2);
            &&& a1 == (ConnAction::Teardown { remove: shutdown })
            &&& a2 == ConnAction::AnnounceDisconnected
            &&& a3 == (ConnAction::Finish { ok })
            &&& p3 == (ConnPhase::Finished { ok })
        }),
{
}

/// A finished cycle stays finished with the same outcome.
pub proof fn lemma_finished_is_final(ok: bool, ev: ConnEvent)
    ensures
        conn_step_spec(ConnPhase::Finished { ok }, ev) == finish(ok),
{
}

} // verus!
