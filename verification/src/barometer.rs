//! The BMP388 driver's decisions, as a state machine that the caller drives:
//! the caller performs each requested register transfer, sleep or report and
//! hands back what came of it; the machine says what to do next.
//!
//! The sequence is: check the chip identifier, switch both sensors on in
//! normal mode, let them settle, read the calibration block once, then sample
//! pressure and temperature once a second for ever. A wrong identifier or a
//! failed transfer during setup stops the driver; a failed sample is skipped.

use vstd::prelude::*;
use crate::calib::{calib_from, raw_sample, NvmCalib};

verus! {

/// I2C address of the barometer.
pub const BARO_ADDR: u8 = 0x77;

/// Register that holds the chip identifier.
pub const REG_CHIP_ID: u8 = 0x00;

/// Power-control register.
pub const REG_PWR_CTRL: u8 = 0x1B;

/// First of the three pressure data registers.
pub const REG_PRESS_DATA: u8 = 0x04;

/// First of the three temperature data registers.
pub const REG_TEMP_DATA: u8 = 0x07;

/// First of the calibration registers.
pub const REG_CALIB: u8 = 0x31;

/// Identifier that a BMP388 reports.
pub const EXPECTED_CHIP_ID: u8 = 0x50;

/// Power-control value: pressure and temperature enabled, normal mode.
pub const PWR_NORMAL: u8 = 0x33;

/// Length of the calibration block.
pub const CALIB_LEN: usize = 21;

/// Length of one data sample.
pub const SAMPLE_LEN: usize = 3;

/// Settling time after power-up, in milliseconds.
pub const SETTLE_MS: u64 = 100;

/// Pause between two samples, in milliseconds.
pub const SAMPLE_PERIOD_MS: u64 = 1000;

/// Where the driver stands.
#[derive(Clone, Copy, Debug, PartialEq, Eq, Structural)]
pub enum BaroPhase {
    /// Waiting for the chip identifier.
    Probing,
    /// Waiting for the power-control write.
    Enabling,
    /// Waiting for the settling time to pass.
    Settling,
    /// Waiting for the calibration block.
    Calibrating,
    /// Waiting for a pressure sample.
    SamplingPressure { calib: NvmCalib },
    /// Waiting for the temperature sample that goes with `press_raw`.
    SamplingTemperature { calib: NvmCalib, press_raw: u32 },
    /// Waiting for the caller to report a pair of samples.
    Reporting { calib: NvmCalib },
    /// Waiting for the pause between samples to pass.
    Waiting { calib: NvmCalib },
    /// The driver gave up; nothing more is asked.
    Stopped,
}

/// What the caller is asked to do next.
#[derive(Clone, Copy, Debug, PartialEq, Eq, Structural)]
pub enum BaroAction {
    /// Write the register address `reg`, then read `len` bytes.
    WriteRead { reg: u8, len: usize },
    /// Write `value` to register `reg`.
    Write { reg: u8, value: u8 },
    /// Sleep for `millis` milliseconds.
    Sleep { millis: u64 },
    /// Compensate and publish a pair of raw samples with `calib`.
    Report { calib: NvmCalib, press_raw: u32, temp_raw: u32 },
    /// Do nothing more.
    Stop,
}

/// What came of the last action.
#[derive(Debug)]
pub enum BaroEvent {
    /// It completed; for a read, with the bytes read.
    Completed(Vec<u8>),
    /// The bus reported an error.
    Failed,
}

/// The calibration the driver holds, once it has read it.
pub open spec fn phase_calib(p: BaroPhase) -> Option<NvmCalib> {
    match p {
        BaroPhase::SamplingPressure { calib } => Some(calib),
        BaroPhase::SamplingTemperature { calib, .. } => Some(calib),
        BaroPhase::Reporting { calib } => Some(calib),
        BaroPhase::Waiting { calib } => Some(calib),
        _ => None,
    }
}

/// Number of bytes that the read awaited in `p` returns (none where `p`
/// awaits a write, a sleep or a report).
pub open spec fn expected_len(p: BaroPhase) -> nat {
    match p {
        BaroPhase::Probing => 1,
        BaroPhase::Calibrating => CALIB_LEN as nat,
        BaroPhase::SamplingPressure { .. } => SAMPLE_LEN as nat,
        BaroPhase::SamplingTemperature { .. } => SAMPLE_LEN as nat,
        _ => 0,
    }
}

/// A completed read returns as many bytes as were asked for.
pub open spec fn event_fits(p: BaroPhase, ev: BaroEvent) -> bool {
    match ev {
        BaroEvent::Completed(b) => b@.len() == expected_len(p),
        BaroEvent::Failed => true,
    }
}

/// The unsigned 24-bit value of a little-endian data register triple.
pub open spec fn sample_value(b: Seq<u8>) -> int {
    b[0] + 256 * b[1] + 65536 * b[2]
}

/// The step that follows a sample, successful or not: pause, keeping the
/// calibration.
pub open spec fn pause(calib: NvmCalib) -> (BaroPhase, BaroAction) {
    (BaroPhase::Waiting { calib }, BaroAction::Sleep { millis: SAMPLE_PERIOD_MS })
}

/// The first phase and action of the driver.
pub open spec fn start_spec() -> (BaroPhase, BaroAction) {
    (BaroPhase::Probing, BaroAction::WriteRead { reg: REG_CHIP_ID, len: 1 })
}

/// The next phase and action, given what came of the last action.
pub open spec fn step_spec(p: BaroPhase, ev: BaroEvent) -> (BaroPhase, BaroAction) {
    match p {
        BaroPhase::Probing => match ev {
            BaroEvent::Completed(b) => if b@[0] == EXPECTED_CHIP_ID {
                (BaroPhase::Enabling, BaroAction::Write { reg: REG_PWR_CTRL, value: PWR_NORMAL })
            } else {
                (BaroPhase::Stopped, BaroAction::Stop)
            },
            BaroEvent::Failed => (BaroPhase::Stopped, BaroAction::Stop),
        },
        BaroPhase::Enabling => match ev {
            BaroEvent::Completed(_) => (BaroPhase::Settling, BaroAction::Sleep { millis: SETTLE_MS }),
            BaroEvent::Failed => (BaroPhase::Stopped, BaroAction::Stop),
        },
        BaroPhase::Settling => (
            BaroPhase::Calibrating,
            BaroAction::WriteRead { reg: REG_CALIB, len: CALIB_LEN },
        ),
        BaroPhase::Calibrating => match ev {
            BaroEvent::Completed(b) => (
                BaroPhase::SamplingPressure { calib: calib_from(b@) },
                BaroAction::WriteRead { reg: REG_PRESS_DATA, len: SAMPLE_LEN },
            ),
            BaroEvent::Failed => (BaroPhase::Stopped, BaroAction::Stop),
        },
        BaroPhase::SamplingPressure { calib } => match ev {
            BaroEvent::Completed(b) => (
                BaroPhase::SamplingTemperature { calib, press_raw: sample_value(b@) as u32 },
                BaroAction::WriteRead { reg: REG_TEMP_DATA, len: SAMPLE_LEN },
            ),
            BaroEvent::Failed => pause(calib),
        },
        BaroPhase::SamplingTemperature { calib, press_raw } => match ev {
            BaroEvent::Completed(b) => (
                BaroPhase::Reporting { calib },
                BaroAction::Report { calib, press_raw, temp_raw: sample_value(b@) as u32 },
            ),
            BaroEvent::Failed => pause(calib),
        },
        BaroPhase::Reporting { calib } => pause(calib),
        BaroPhase::Waiting { calib } => (
            BaroPhase::SamplingPressure { calib },
            BaroAction::WriteRead { reg: REG_PRESS_DATA, len: SAMPLE_LEN },
        ),
        BaroPhase::Stopped => (BaroPhase::Stopped, BaroAction::Stop),
    }
}

/// The first phase and action: ask for the chip identifier.
pub fn baro_start() -> (r: (BaroPhase, BaroAction))
    ensures
        r == start_spec(),
{
    (BaroPhase::Probing, BaroAction::WriteRead { reg: REG_CHIP_ID, len: 1 })
}

/// The three bytes of a completed sample read, as an array.
fn sample_bytes(b: &Vec<u8>) -> (a: [u8; 3])
    requires
        b@.len() == SAMPLE_LEN,
    ensures
        a@ == b@,
{
    let a = [b[0], b[1], b[2]];
    assert(a@ =~= b@);
    a
}

/// The twenty-one bytes of a completed calibration read, as an array.
fn calib_bytes(b: &Vec<u8>) -> (a: [u8; 21])
    requires
        b@.len() == CALIB_LEN,
    ensures
        a@ == b@,
{
    let a = [
        b[0], b[1], b[2], b[3], b[4], b[5], b[6], b[7], b[8], b[9], b[10],
        b[11], b[12], b[13], b[14], b[15], b[16], b[17], b[18], b[19], b[20],
    ];
    assert(a@ =~= b@);
    a
}

/// The next phase and action after `p`, given what came of the last action.
pub fn baro_step(p: BaroPhase, ev: &BaroEvent) -> (r: (BaroPhase, BaroAction))
    requires
        event_fits(p, *ev),
    ensures
        r == step_spec(p, *ev),
{
    match p {
        BaroPhase::Probing => match ev {
            BaroEvent::Completed(b) => if b[0] == EXPECTED_CHIP_ID {
                (BaroPhase::Enabling, BaroAction::Write { reg: REG_PWR_CTRL, value: PWR_NORMAL })
            } else {
                (BaroPhase::Stopped, BaroAction::Stop)
            },
            BaroEvent::Failed => (BaroPhase::Stopped, BaroAction::Stop),
        },
        BaroPhase::Enabling => match ev {
            BaroEvent::Completed(_) => (BaroPhase::Settling, BaroAction::Sleep { millis: SETTLE_MS }),
            BaroEvent::Failed => (BaroPhase::Stopped, BaroAction::Stop),
        },
        BaroPhase::Settling => (
            BaroPhase::Calibrating,
            BaroAction::WriteRead { reg: REG_CALIB, len: CALIB_LEN },
        ),
        BaroPhase::Calibrating => match ev {
            BaroEvent::Completed(b) => {
                let data = calib_bytes(b);
                let calib = NvmCalib::from_raw_bytes(&data);
                (
                    BaroPhase::SamplingPressure { calib },
                    BaroAction::WriteRead { reg: REG_PRESS_DATA, len: SAMPLE_LEN },
                )
            },
            BaroEvent::Failed => (BaroPhase::Stopped, BaroAction::Stop),
        },
        BaroPhase::SamplingPressure { calib } => match ev {
            BaroEvent::Completed(b) => {
                let press_raw = raw_sample(&sample_bytes(b));
                (
                    BaroPhase::SamplingTemperature { calib, press_raw },
                    BaroAction::WriteRead { reg: REG_TEMP_DATA, len: SAMPLE_LEN },
                )
            },
            BaroEvent::Failed => (
                BaroPhase::Waiting { calib },
                BaroAction::Sleep { millis: SAMPLE_PERIOD_MS },
            ),
        },
        BaroPhase::SamplingTemperature { calib, press_raw } => match ev {
            BaroEvent::Completed(b) => {
                let temp_raw = raw_sample(&sample_bytes(b));
                (BaroPhase::Reporting { calib }, BaroAction::Report { calib, press_raw, temp_raw })
            },
            BaroEvent::Failed => (
                BaroPhase::Waiting { calib },
                BaroAction::Sleep { millis: SAMPLE_PERIOD_MS },
            ),
        },
        BaroPhase::Reporting { calib } => (
            BaroPhase::Waiting { calib },
            BaroAction::Sleep { millis: SAMPLE_PERIOD_MS },
        ),
        BaroPhase::Waiting { calib } => (
            BaroPhase::SamplingPressure { calib },
            BaroAction::WriteRead { reg: REG_PRESS_DATA, len: SAMPLE_LEN },
        ),
        BaroPhase::Stopped => (BaroPhase::Stopped, BaroAction::Stop),
    }
}

/// Once stopped, the driver stays stopped and asks for nothing more.
pub proof fn lemma_stopped_is_final(ev: BaroEvent)
    ensures
        step_spec(BaroPhase::Stopped, ev) == (BaroPhase::Stopped, BaroAction::Stop),
{
}

/// The sensors are switched on only right after the chip has identified
/// itself as a BMP388.
pub proof fn lemma_power_on_needs_chip_id(p: BaroPhase, ev: BaroEvent)
    requires
        step_spec(p, ev).1 is Write,
    ensures
        p == BaroPhase::Probing,
        ev matches BaroEvent::Completed(b) && b@[0] == EXPECTED_CHIP_ID,
{
}

/// The calibration is read once and kept for every later sample: from then
/// on no step drops or changes it, so sampling never stops.
pub proof fn lemma_calibration_kept(p: BaroPhase, ev: BaroEvent)
    requires
        phase_calib(p) is Some,
    ensures
        phase_calib(step_spec(p, ev).0) == phase_calib(p),
        step_spec(p, ev).1 != BaroAction::Stop,
{
}

/// Two bytes read little-endian as a two's complement 16-bit value.
pub open spec fn le_i16(lo: u8, hi: u8) -> int {
    lo + 256 * hi - (if hi >= 128 { 65536int } else { 0int })
}

/// A byte read as a two's complement 8-bit value.
pub open spec fn byte_i8(b: u8) -> int {
    b - (if b >= 128 { 256int } else { 0int })
}

/// Whether `calib` holds the coefficients of the 21-byte block `b` in the
/// register order of the datasheet: T1, T2 (unsigned 16-bit), T3 (signed
/// 8-bit), P1, P2 (signed 16-bit), P3, P4 (signed 8-bit), P5, P6 (unsigned
/// 16-bit), P7, P8 (signed 8-bit), P9 (signed 16-bit), P10, P11 (signed 8-bit).
pub open spec fn holds_block(calib: NvmCalib, b: Seq<u8>) -> bool {
    &&& calib.par_t1 == b[0] + 256 * b[1]
    &&& calib.par_t2 == b[2] + 256 * b[3]
    &&& calib.par_t3 == byte_i8(b[4])
    &&& calib.par_p1 == le_i16(b[5], b[6])
    &&& calib.par_p2 == le_i16(b[7], b[8])
    &&& calib.par_p3 == byte_i8(b[9])
    &&& calib.par_p4 == byte_i8(b[10])
    &&& calib.par_p5 == b[11] + 256 * b[12]
    &&& calib.par_p6 == b[13] + 256 * b[14]
    &&& calib.par_p7 == byte_i8(b[15])
    &&& calib.par_p8 == byte_i8(b[16])
    &&& calib.par_p9 == le_i16(b[17], b[18])
    &&& calib.par_p10 == byte_i8(b[19])
    &&& calib.par_p11 == byte_i8(b[20])
}

/// The calibration the driver samples with is the block it read: after a
/// completed calibration read of `b`, the driver samples pressure holding the
/// coefficients of `b`, each from its own register bytes.
pub proof fn lemma_calibration_is_block_read(b: Vec<u8>)
    requires
        b@.len() == CALIB_LEN,
    ensures
        ({
            let (p, a) = step_spec(BaroPhase::Calibrating, BaroEvent::Completed(b));
            &&& p is SamplingPressure
            &&& holds_block(phase_calib(p).unwrap(), b@)
            &&& a == (BaroAction::WriteRead { reg: REG_PRESS_DATA, len: SAMPLE_LEN })
        }),
{
}

/// Every report carries the calibration that was held while sampling, and
/// sampling after the calibration read holds the decoded block.
pub proof fn lemma_report_uses_held_calibration(p: BaroPhase, ev: BaroEvent)
    requires
        step_spec(p, ev).1 is Report,
    ensures
        step_spec(p, ev).1 matches BaroAction::Report { calib, .. } && phase_calib(p) == Some(calib),
{
}

/// A report carries the calibration held, the pressure sample read before
/// and the temperature sample just read.
pub proof fn lemma_report_pairs_samples(p: BaroPhase, ev: BaroEvent)
    requires
        step_spec(p, ev).1 is Report,
    ensures
        p matches BaroPhase::SamplingTemperature { calib, press_raw } && ev matches BaroEvent::Completed(b)
            && step_spec(p, ev).1 == (BaroAction::Report {
                calib,
                press_raw,
                temp_raw: sample_value(b@) as u32,
            }),
{
}

} // verus!
