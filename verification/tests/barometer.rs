use meteo_station::barometer::{
    baro_start, baro_step, BaroAction, BaroEvent, BaroPhase, CALIB_LEN, EXPECTED_CHIP_ID,
    PWR_NORMAL, REG_CALIB, REG_CHIP_ID, REG_PRESS_DATA, REG_PWR_CTRL, REG_TEMP_DATA,
    SAMPLE_LEN, SAMPLE_PERIOD_MS, SETTLE_MS,
};
use meteo_station::calib::NvmCalib;

fn done(bytes: &[u8]) -> BaroEvent {
    BaroEvent::Completed(bytes.to_vec())
}

fn calibrated() -> (BaroPhase, NvmCalib) {
    let (p, _) = baro_start();
    let (p, _) = baro_step(p, &done(&[EXPECTED_CHIP_ID]));
    let (p, _) = baro_step(p, &done(&[]));
    let (p, _) = baro_step(p, &done(&[]));
    let mut block = [0_u8; 21];
    block[0] = 0x34;
    block[1] = 0x12;
    let (p, a) = baro_step(p, &done(&block));
    assert_eq!(a, BaroAction::WriteRead { reg: REG_PRESS_DATA, len: SAMPLE_LEN });
    (p, NvmCalib::from_raw_bytes(&block))
}

#[test]
fn barometer_setup_sequence() {
    let (p, a) = baro_start();
    assert_eq!(p, BaroPhase::Probing);
    assert_eq!(a, BaroAction::WriteRead { reg: REG_CHIP_ID, len: 1 });
    let (p, a) = baro_step(p, &done(&[0x50]));
    assert_eq!(a, BaroAction::Write { reg: REG_PWR_CTRL, value: PWR_NORMAL });
    assert_eq!((REG_PWR_CTRL, PWR_NORMAL), (0x1B, 0x33));
    let (p, a) = baro_step(p, &done(&[]));
    assert_eq!(a, BaroAction::Sleep { millis: SETTLE_MS });
    assert_eq!(SETTLE_MS, 100);
    let (p, a) = baro_step(p, &done(&[]));
    assert_eq!(p, BaroPhase::Calibrating);
    assert_eq!(a, BaroAction::WriteRead { reg: REG_CALIB, len: CALIB_LEN });
    assert_eq!((REG_CALIB, CALIB_LEN), (0x31, 21));
}

#[test]
fn barometer_wrong_chip_id_stops() {
    let (p, _) = baro_start();
    let (p, a) = baro_step(p, &done(&[0x60]));
    assert_eq!(p, BaroPhase::Stopped);
    assert_eq!(a, BaroAction::Stop);
    let (p, a) = baro_step(p, &done(&[]));
    assert_eq!((p, a), (BaroPhase::Stopped, BaroAction::Stop));
}

#[test]
fn barometer_setup_failure_stops() {
    let (p, _) = baro_start();
    assert_eq!(baro_step(p, &BaroEvent::Failed), (BaroPhase::Stopped, BaroAction::Stop));
    let (p, _) = baro_step(p, &done(&[EXPECTED_CHIP_ID]));
    assert_eq!(baro_step(p, &BaroEvent::Failed), (BaroPhase::Stopped, BaroAction::Stop));
    let (p, _) = baro_step(p, &done(&[]));
    let (p, _) = baro_step(p, &done(&[]));
    assert_eq!(baro_step(p, &BaroEvent::Failed), (BaroPhase::Stopped, BaroAction::Stop));
}

#[test]
fn barometer_samples_pressure_then_temperature() {
    let (p, calib) = calibrated();
    assert_eq!(calib.par_t1, 0x1234);
    assert_eq!(p, BaroPhase::SamplingPressure { calib });
    let (p, a) = baro_step(p, &done(&[0x01, 0x02, 0x03]));
    assert_eq!(a, BaroAction::WriteRead { reg: REG_TEMP_DATA, len: SAMPLE_LEN });
    let (p, a) = baro_step(p, &done(&[0x04, 0x05, 0x06]));
    assert_eq!(a, BaroAction::Report { calib, press_raw: 0x030201, temp_raw: 0x060504 });
    let (p, a) = baro_step(p, &done(&[]));
    assert_eq!(a, BaroAction::Sleep { millis: SAMPLE_PERIOD_MS });
    assert_eq!(SAMPLE_PERIOD_MS, 1000);
    let (p, a) = baro_step(p, &done(&[]));
    assert_eq!(p, BaroPhase::SamplingPressure { calib });
    assert_eq!(a, BaroAction::WriteRead { reg: REG_PRESS_DATA, len: SAMPLE_LEN });
}

#[test]
fn barometer_failed_sample_is_skipped() {
    let (p, calib) = calibrated();
    let (p, a) = baro_step(p, &BaroEvent::Failed);
    assert_eq!(p, BaroPhase::Waiting { calib });
    assert_eq!(a, BaroAction::Sleep { millis: SAMPLE_PERIOD_MS });
    let (p, _) = baro_step(p, &done(&[]));
    let (p, _) = baro_step(p, &done(&[9, 9, 9]));
    let (p, a) = baro_step(p, &BaroEvent::Failed);
    assert_eq!(p, BaroPhase::Waiting { calib });
    assert_eq!(a, BaroAction::Sleep { millis: SAMPLE_PERIOD_MS });
}
