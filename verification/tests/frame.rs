use std::collections::HashMap;

use meteo_station::frame::{
    contains_str, field_to_index, frame_payload, is_station_candidate, name_mentions_station,
    reading_bytes, FrameField, COMPANY_ID, FRAME_LEN,
};

#[test]
fn decode_frame_accepts_valid_company_payload() {
    let payload: Vec<u8> = (0..FRAME_LEN as u8).collect();
    let mut mfg = HashMap::new();
    mfg.insert(COMPANY_ID, payload.clone());
    let result = frame_payload(&mfg);
    assert_eq!(result, Some(&payload));
}

#[test]
fn decode_frame_rejects_wrong_company() {
    let mut mfg = HashMap::new();
    mfg.insert(0x0059_u16, vec![0_u8; FRAME_LEN]);
    assert!(frame_payload(&mfg).is_none(), "expected None for wrong company ID");
}

#[test]
fn decode_frame_rejects_wrong_length() {
    let mut mfg = HashMap::new();
    mfg.insert(COMPANY_ID, vec![0_u8; 10]);
    assert!(frame_payload(&mfg).is_none(), "expected None for wrong-length payload");
}

#[test]
fn decode_reading_round_trip() {
    let bytes = 23.45_f32.to_le_bytes();
    let result = reading_bytes(&bytes);
    let b = result.expect("decode_reading should return Some for a valid 4-byte value");
    let v = f32::from_le_bytes(b);
    assert!((v - 23.45_f32).abs() < 1e-3, "decoded value should be approximately 23.45, got {v}");
}

#[test]
fn decode_reading_too_short_returns_none() {
    let data = [0x01_u8, 0x02_u8];
    assert!(reading_bytes(&data).is_none(), "decode_reading should return None for a too-short slice");
}

#[test]
fn reading_bytes_takes_leading_four() {
    let data = [1_u8, 2, 3, 4, 5, 6];
    assert_eq!(reading_bytes(&data), Some([1, 2, 3, 4]));
}

#[test]
fn field_to_index_maps_temperature_and_pressure() {
    assert_eq!(field_to_index(FrameField::Temperature), Some(0_usize), "Temperature should map to registry index 0");
    assert_eq!(field_to_index(FrameField::Pressure), Some(1_usize), "Pressure should map to registry index 1");
    assert_eq!(field_to_index(FrameField::Humidity), None, "Humidity should map to None (not in registry yet)");
    assert_eq!(field_to_index(FrameField::Battery), None);
}

#[test]
fn station_name_matching() {
    assert!(name_mentions_station("MeteoStation"));
    assert!(name_mentions_station("my MeteoStation 2"));
    assert!(!name_mentions_station("Meteo Station"));
    assert!(!name_mentions_station(""));
    assert!(contains_str("abc", ""));
    assert!(!contains_str("ab", "abc"));
}

#[test]
fn station_candidate_needs_exact_name_and_rssi() {
    assert!(is_station_candidate(Some("MeteoStation"), Some(-60)));
    assert!(!is_station_candidate(Some("MeteoStation"), None));
    assert!(!is_station_candidate(Some("MeteoStation2"), Some(-60)));
    assert!(!is_station_candidate(None, Some(-60)));
}
