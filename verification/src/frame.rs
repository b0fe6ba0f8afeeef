//! Selecting telemetry payloads from advertisements and characteristic
//! values, and mapping frame fields onto the sensor registry.

use std::collections::HashMap;

use vstd::prelude::*;

use crate::text::str_equals;

verus! {

broadcast use vstd::std_specs::hash::group_hash_axioms;

/// Bluetooth company identifier used by the firmware in manufacturer-specific
/// advertising data (`0xFFFF` = reserved for testing / internal use).
pub const COMPANY_ID: u16 = 0xFFFF;

/// Advertised name of the weather station.
pub const DEVICE_NAME: &'static str = "MeteoStation";

/// Length in bytes of one telemetry frame.
pub const FRAME_LEN: usize = 18;

/// The payload a manufacturer-data map carries for the station: the entry
/// under [`COMPANY_ID`], when it is exactly [`FRAME_LEN`] bytes long.
pub open spec fn frame_payload_spec(mfg: Map<u16, Vec<u8>>) -> Option<Vec<u8>> {
    if mfg.contains_key(COMPANY_ID) && mfg[COMPANY_ID]@.len() == FRAME_LEN {
        Some(mfg[COMPANY_ID])
    } else {
        None
    }
}

/// The telemetry payload of an advertisement's manufacturer-data map, ready
/// for the frame decoder; `None` for a wrong company or a wrong length.
pub fn frame_payload(mfg: &HashMap<u16, Vec<u8>>) -> (r: Option<&Vec<u8>>)
    ensures
        match frame_payload_spec(mfg@) {
            Some(p) => r == Some(&p),
            None => r is None,
        },
{
    match mfg.get(&COMPANY_ID) {
        Some(payload) => {
            if payload.len() == FRAME_LEN {
                Some(payload)
            } else {
                None
            }
        },
        None => None,
    }
}

/// The four leading bytes of a characteristic value, which encode one
/// little-endian `f32` reading; `None` for a shorter value.
pub fn reading_bytes(data: &[u8]) -> (r: Option<[u8; 4]>)
    ensures
        data@.len() < 4 ==> r is None,
        data@.len() >= 4 ==> r is Some && r.unwrap()@ == data@.subrange(0, 4),
{
    if data.len() < 4 {
        None
    } else {
        let b = [data[0], data[1], data[2], data[3]];
        assert(b@ =~= data@.subrange(0, 4));
        Some(b)
    }
}

/// One measured field of a telemetry frame.
#[derive(Clone, Copy, Debug, PartialEq, Eq, Structural)]
pub enum FrameField {
    /// Air temperature.
    Temperature,
    /// Barometric pressure.
    Pressure,
    /// Relative humidity.
    Humidity,
    /// Sky (IR) temperature.
    SkyTemp,
    /// Illuminance.
    Luminosity,
    /// Wind speed.
    WindSpeed,
    /// Wind direction.
    WindDir,
    /// Battery state of charge.
    Battery,
}

/// Registry slot of a frame field: temperature first, pressure second; the
/// other fields are not presented.
pub open spec fn field_index_spec(field: FrameField) -> Option<usize> {
    match field {
        FrameField::Temperature => Some(0),
        FrameField::Pressure => Some(1),
        _ => None,
    }
}

/// Map a decoded frame field to its registry index, or `None` if the registry
/// does not present it.
pub fn field_to_index(field: FrameField) -> (r: Option<usize>)
    ensures
        r == field_index_spec(field),
{
    match field {
        FrameField::Temperature => Some(0),
        FrameField::Pressure => Some(1),
        FrameField::Humidity
        | FrameField::SkyTemp
        | FrameField::Luminosity
        | FrameField::WindSpeed
        | FrameField::WindDir
        | FrameField::Battery => None,
    }
}

/// Distinct fields never share a registry slot.
pub proof fn lemma_field_index_injective(a: FrameField, b: FrameField)
    ensures
        field_index_spec(a) is Some && field_index_spec(a) == field_index_spec(b) ==> a == b,
{
}

/// Whether `pat` occurs in `s` at position `i`.
pub open spec fn occurs_at(s: Seq<char>, pat: Seq<char>, i: int) -> bool {
    0 <= i && i + pat.len() <= s.len() && s.subrange(i, i + pat.len()) == pat
}

/// Whether `pat` occurs anywhere in `s`.
pub open spec fn contains_text(s: Seq<char>, pat: Seq<char>) -> bool {
    exists|i: int| occurs_at(s, pat, i)
}

/// Whether `pat` occurs in `s` at position `i` (exec).
fn matches_at(s: &str, pat: &str, i: usize) -> (r: bool)
    requires
        i + pat@.len() <= s@.len(),
    ensures
        r == occurs_at(s@, pat@, i as int),
{
    let n = s.unicode_len();
    let m = pat.unicode_len();
    let mut k: usize = 0;
    while k < m
        invariant
            n == s@.len(),
            m == pat@.len(),
            i + m <= s@.len(),
            k <= m,
            forall|j: int| 0 <= j < k ==> s@[i + j] == pat@[j],
        decreases m - k,
    {
        if s.get_char(i + k) != pat.get_char(k) {
            assert(s@.subrange(i as int, i + m)[k as int] != pat@[k as int]);
            return false;
        }
        k += 1;
    }
    assert(s@.subrange(i as int, i + m) =~= pat@);
    true
}

/// Whether the text `s` contains `pat` (substring search).
pub fn contains_str(s: &str, pat: &str) -> (r: bool)
    ensures
        r == contains_text(s@, pat@),
{
    let n = s.unicode_len();
    let m = pat.unicode_len();
    if m > n {
        assert forall|i: int| !occurs_at(s@, pat@, i) by {}
        return false;
    }
    if m == 0 {
        assert(s@.subrange(0, 0) =~= pat@);
        assert(occurs_at(s@, pat@, 0));
        return true;
    }
    let mut i: usize = 0;
    while i <= n - m
        invariant
            n == s@.len(),
            m == pat@.len(),
            1 <= m <= n,
            i <= n - m + 1,
            forall|j: int| 0 <= j < i ==> !occurs_at(s@, pat@, j),
        decreases n - m + 1 - i,
    {
        if matches_at(s, pat, i) {
            return true;
        }
        i += 1;
    }
    assert forall|j: int| !occurs_at(s@, pat@, j) by {
        if 0 <= j && j + m <= n {
            assert(j < i);
        }
    }
    false
}

/// Whether a scanned peripheral's local name mentions the station.
pub fn name_mentions_station(name: &str) -> (r: bool)
    ensures
        r == contains_text(name@, DEVICE_NAME@),
{
    contains_str(name, DEVICE_NAME)
}

/// Whether a discovered device is the station and actually in range: its name
/// is exactly [`DEVICE_NAME`] and it reports an RSSI (a cached entry has none).
pub fn is_station_candidate(name: Option<&str>, rssi: Option<i16>) -> (r: bool)
    ensures
        r == (name is Some && name.unwrap()@ == DEVICE_NAME@ && rssi is Some),
{
    match name {
        Some(n) => str_equals(n, DEVICE_NAME) && rssi.is_some(),
        None => false,
    }
}

} // verus!
