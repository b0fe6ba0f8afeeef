//! Dashboard domain model: signal state derived from frame age, trend
//! classes, and uptime labels.

use vstd::prelude::*;

use crate::clock::{elapsed_nanos, Moment, Span};
use crate::text::{decimal, pad2, push_char, push_decimal, push_pad2};

verus! {

/// Dashboard signal state derived purely from frame age.
#[derive(Clone, Copy, Debug, PartialEq, Eq, Structural)]
pub enum SignalState {
    /// No frame has been received yet.
    NoSignal,
    /// The last frame arrived within `stale_after`.
    Live,
    /// Frames have been seen, but the latest is older than `stale_after`.
    Stale,
}

/// The signal state for a last-frame instant, a current instant and a limit.
pub open spec fn signal_state_spec(
    last_frame_at: Option<Moment>,
    now: Moment,
    stale_after: Span,
) -> SignalState {
    match last_frame_at {
        None => SignalState::NoSignal,
        Some(t) => if elapsed_nanos(now, t) > stale_after.nanos {
            SignalState::Stale
        } else {
            SignalState::Live
        },
    }
}

impl SignalState {
    /// Derive the state from the last-frame timestamp: `NoSignal` before any
    /// frame, `Stale` once the frame is strictly older than `stale_after`,
    /// `Live` otherwise.
    pub fn from_age(last_frame_at: Option<Moment>, now: Moment, stale_after: Span) -> (s: Self)
        ensures
            s == signal_state_spec(last_frame_at, now, stale_after),
    {
        match last_frame_at {
            None => SignalState::NoSignal,
            Some(t) => {
                if now.duration_since(t).as_nanos() > stale_after.as_nanos() {
                    SignalState::Stale
                } else {
                    SignalState::Live
                }
            },
        }
    }
}

/// 10-min air-temperature trend classification.
#[derive(Clone, Copy, Debug, PartialEq, Eq, Structural)]
pub enum Trend {
    /// Temperature is increasing.
    Rising,
    /// Temperature is decreasing.
    Falling,
    /// Temperature change is within the stability epsilon.
    Stable,
}

/// The compact uptime label: `"{h}h{mm}m"` from one hour, `"{m}m{ss}s"` from
/// one minute, `"0m{ss}s"` below; minutes and seconds are two-digit padded.
pub open spec fn uptime_text(secs: nat) -> Seq<char> {
    if secs >= 3600 {
        decimal(secs / 3600) + seq!['h'] + pad2((secs % 3600) / 60) + seq!['m']
    } else if secs >= 60 {
        decimal(secs / 60) + seq!['m'] + pad2(secs % 60) + seq!['s']
    } else {
        seq!['0', 'm'] + pad2(secs) + seq!['s']
    }
}

/// Format an uptime duration as a compact human-readable label
/// (3725 → `"1h02m"`, 90 → `"1m30s"`, 45 → `"0m45s"`).
pub fn fmt_uptime(secs: u32) -> (s: String)
    ensures
        s@ == uptime_text(secs as nat),
{
    let mut s = String::new();
    if secs >= 3600 {
        push_decimal(&mut s, (secs / 3600) as u64);
        push_char(&mut s, 'h');
        push_pad2(&mut s, ((secs % 3600) / 60) as u8);
        push_char(&mut s, 'm');
    } else if secs >= 60 {
        push_decimal(&mut s, (secs / 60) as u64);
        push_char(&mut s, 'm');
        push_pad2(&mut s, (secs % 60) as u8);
        push_char(&mut s, 's');
    } else {
        push_char(&mut s, '0');
        push_char(&mut s, 'm');
        push_pad2(&mut s, secs as u8);
        push_char(&mut s, 's');
    }
    s
}

/// The French 16-point compass rose, clockwise from North (West is "O").
pub open spec fn compass_points_fr() -> Seq<Seq<char>> {
    seq!["N"@, "NNE"@, "NE"@, "ENE"@, "E"@, "ESE"@, "SE"@, "SSE"@, "S"@, "SSO"@, "SO"@, "OSO"@,
        "O"@, "ONO"@, "NO"@, "NNO"@]
}

/// Compass point of a 22.5° sector index (the heading divided by 22.5°,
/// rounded); sector 16, a full turn, wraps back to North.
pub fn compass_point_fr(sector: usize) -> (s: &'static str)
    ensures
        s@ == compass_points_fr()[if sector >= 16 { 0 } else { sector as int }],
{
    let idx = if sector >= 16 { 0 } else { sector };
    match idx {
        0 => "N",
        1 => "NNE",
        2 => "NE",
        3 => "ENE",
        4 => "E",
        5 => "ESE",
        6 => "SE",
        7 => "SSE",
        8 => "S",
        9 => "SSO",
        10 => "SO",
        11 => "OSO",
        12 => "O",
        13 => "ONO",
        14 => "NO",
        _ => "NNO",
    }
}

/// The cardinal point nearest to odd rose point `k` (0 = N, 4 = E, 8 = S,
/// 12 = O); point 15 is nearest to North.
pub open spec fn nearest_cardinal(k: int) -> int {
    if k % 4 == 1 {
        k - 1
    } else {
        (k + 1) % 16
    }
}

/// The intercardinal point (2, 6, 10 or 14) of the quadrant of point `k`.
pub open spec fn quadrant_intercardinal(k: int) -> int {
    (k / 4) * 4 + 2
}

/// The north/south cardinal of intercardinal `2 + 4 * q`: N for the two
/// northern quadrants, S for the southern ones.
pub open spec fn north_south(q: int) -> int {
    if q == 0 || q == 3 {
        0
    } else {
        8
    }
}

/// The east/west cardinal of intercardinal `2 + 4 * q`: E for the eastern
/// quadrants, O for the western ones.
pub open spec fn east_west(q: int) -> int {
    if q < 2 {
        4
    } else {
        12
    }
}

/// The French rose clockwise from North, one point per 22.5°: points 0, 4,
/// 8, 12 are the cardinals N, E, S, O; each intercardinal `2 + 4q` joins its
/// north/south cardinal and its east/west cardinal (NE, SE, SO, NO); each
/// odd point joins its nearest cardinal and the intercardinal of its
/// quadrant (NNE, ENE, ESE, SSE, SSO, OSO, ONO, NNO). A full turn (sector 16)
/// reads North.
pub proof fn lemma_compass_rose_structure()
    ensures
        compass_points_fr().len() == 16,
        compass_points_fr()[0] == seq!['N'],
        compass_points_fr()[4] == seq!['E'],
        compass_points_fr()[8] == seq!['S'],
        compass_points_fr()[12] == seq!['O'],
        forall|q: int|
            0 <= q < 4 ==> #[trigger] compass_points_fr()[2 + 4 * q] == compass_points_fr()[north_south(
                q,
            )] + compass_points_fr()[east_west(q)],
        forall|k: int|
            0 <= k < 16 && k % 2 == 1 ==> #[trigger] compass_points_fr()[k] == compass_points_fr()[nearest_cardinal(
                k,
            )] + compass_points_fr()[quadrant_intercardinal(k)],
{
    reveal_strlit("N");
    reveal_strlit("NNE");
    reveal_strlit("NE");
    reveal_strlit("ENE");
    reveal_strlit("E");
    reveal_strlit("ESE");
    reveal_strlit("SE");
    reveal_strlit("SSE");
    reveal_strlit("S");
    reveal_strlit("SSO");
    reveal_strlit("SO");
    reveal_strlit("OSO");
    reveal_strlit("O");
    reveal_strlit("ONO");
    reveal_strlit("NO");
    reveal_strlit("NNO");
    let p = compass_points_fr();
    assert(p[0] =~= seq!['N']);
    assert(p[4] =~= seq!['E']);
    assert(p[8] =~= seq!['S']);
    assert(p[12] =~= seq!['O']);
    assert(p[2] =~= p[0] + p[4]);
    assert(p[6] =~= p[8] + p[4]);
    assert(p[10] =~= p[8] + p[12]);
    assert(p[14] =~= p[0] + p[12]);
    assert forall|q: int| 0 <= q < 4 implies #[trigger] p[2 + 4 * q] == p[north_south(q)]
        + p[east_west(q)] by {
        if q == 0 {
        } else if q == 1 {
        } else if q == 2 {
        } else {
        }
    }
    assert(p[1] =~= p[0] + p[2]);
    assert(p[3] =~= p[4] + p[2]);
    assert(p[5] =~= p[4] + p[6]);
    assert(p[7] =~= p[8] + p[6]);
    assert(p[9] =~= p[8] + p[10]);
    assert(p[11] =~= p[12] + p[10]);
    assert(p[13] =~= p[12] + p[14]);
    assert(p[15] =~= p[0] + p[14]);
    assert forall|k: int| 0 <= k < 16 && k % 2 == 1 implies #[trigger] p[k]
        == p[nearest_cardinal(k)] + p[quadrant_intercardinal(k)] by {
        if k == 1 {
        } else if k == 3 {
        } else if k == 5 {
        } else if k == 7 {
        } else if k == 9 {
        } else if k == 11 {
        } else if k == 13 {
        } else {
            assert(k == 15);
        }
    }
}

/// Rose point `k` has one letter on the cardinals 0, 4, 8, 12, two on the
/// intercardinals 2, 6, 10, 14, and three on the odd points.
pub proof fn lemma_compass_label_lengths(k: int)
    requires
        0 <= k < 16,
    ensures
        k % 4 == 0 ==> compass_points_fr()[k].len() == 1,
        k % 4 == 2 ==> compass_points_fr()[k].len() == 2,
        k % 2 == 1 ==> compass_points_fr()[k].len() == 3,
{
    lemma_compass_rose_structure();
    let p = compass_points_fr();
    if k % 4 == 0 {
        assert(k == 0 || k == 4 || k == 8 || k == 12);
    } else if k % 4 == 2 {
        let q = (k - 2) / 4;
        assert(p[2 + 4 * q] == p[north_south(q)] + p[east_west(q)]);
    } else {
        let c = nearest_cardinal(k);
        let i = quadrant_intercardinal(k);
        assert(p[k] == p[c] + p[i]);
        assert(c == 0 || c == 4 || c == 8 || c == 12);
        let q = (i - 2) / 4;
        assert(p[2 + 4 * q] == p[north_south(q)] + p[east_west(q)]);
    }
}

/// Link label of the header strip: "En direct" when live, "Hors ligne" otherwise.
pub open spec fn link_label_spec(s: SignalState) -> Seq<char> {
    match s {
        SignalState::Live => "En direct"@,
        _ => "Hors ligne"@,
    }
}

/// Link label of the header strip for a signal state.
pub fn link_label(s: SignalState) -> (t: &'static str)
    ensures
        t@ == link_label_spec(s),
{
    match s {
        SignalState::Live => "En direct",
        SignalState::Stale | SignalState::NoSignal => "Hors ligne",
    }
}

} // verus!
