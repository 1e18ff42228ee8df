//! The Sensirion SCD41 CO2 / temperature / humidity sensor: its commands,
//! their execution times, and the decoding of its replies.
//!
//! Only the single-shot ("on demand") measurement flow is used:
//!
//! 1. `measure_single_shot` (0x219D) triggers one conversion.
//! 2. The sensor needs 5000 ms to finish it.
//! 3. `read_measurement` (0xEC05) returns 3 words, each followed by a CRC-8.

use vstd::prelude::*;
use crate::sensirion::{decode_words, all_chunks_ok, chunk_words, CrcMismatch};

verus! {

/// Factory-default 7-bit address of the SCD41.
pub const DEFAULT_ADDRESS: u8 = 0x62;

pub const CMD_STOP_PERIODIC_MEASUREMENT: u16 = 0x3F86;
pub const CMD_WAKE_UP: u16 = 0x36F6;
pub const CMD_REINIT: u16 = 0x3646;
pub const CMD_MEASURE_SINGLE_SHOT: u16 = 0x219D;
pub const CMD_MEASURE_SINGLE_SHOT_RHT_ONLY: u16 = 0x2196;
pub const CMD_READ_MEASUREMENT: u16 = 0xEC05;
pub const CMD_GET_SERIAL_NUMBER: u16 = 0x3682;
pub const CMD_GET_SENSOR_VARIANT: u16 = 0x202F;
pub const CMD_GET_TEMPERATURE_OFFSET: u16 = 0x2318;
pub const CMD_GET_SENSOR_ALTITUDE: u16 = 0x2322;
pub const CMD_GET_AMBIENT_PRESSURE: u16 = 0xE000;
pub const CMD_GET_AUTOMATIC_SELF_CALIBRATION_ENABLED: u16 = 0x2313;
pub const CMD_GET_AUTOMATIC_SELF_CALIBRATION_TARGET: u16 = 0x233F;
pub const CMD_GET_AUTOMATIC_SELF_CALIBRATION_INITIAL_PERIOD: u16 = 0x2340;
pub const CMD_GET_AUTOMATIC_SELF_CALIBRATION_STANDARD_PERIOD: u16 = 0x234B;

/// Execution time of `stop_periodic_measurement`.
pub const STOP_PERIODIC_MEASUREMENT_DELAY_MS: u64 = 500;
/// Execution time of `reinit`.
pub const REINIT_DELAY_MS: u64 = 30;
/// Execution time of `wake_up`.
pub const WAKE_UP_DELAY_MS: u64 = 30;
/// Execution time of a full single-shot measurement.
pub const SINGLE_SHOT_MEASUREMENT_DELAY_MS: u64 = 5000;
/// Execution time of an RH/T-only single-shot measurement.
pub const MEASURE_SINGLE_SHOT_RHT_ONLY_DELAY_MS: u64 = 50;
/// Execution time of short commands such as `read_measurement`.
pub const SHORT_COMMAND_DELAY_MS: u64 = 1;

/// The two bytes of a 16-bit command, most significant first.
pub fn command_bytes(command: u16) -> (bytes: [u8; 2])
    ensures
        bytes[0] as int == command as int / 256,
        bytes[1] as int == command as int % 256,
{
    [(command / 256) as u8, (command % 256) as u8]
}

/// Sensor type reported by `get_sensor_variant` (0x202F).
///
/// The variant is encoded in bits 15..12 of the returned word.
#[derive(Debug, Clone, Copy, PartialEq, Eq)]
pub enum SensorVariant {
    /// Bits 15..12 == 0b0000.
    Scd40,
    /// Bits 15..12 == 0b0001.
    Scd41,
    /// Bits 15..12 == 0b0101.
    Scd43,
    /// Any other encoding, carrying the raw 4-bit field.
    Unknown(u8),
}

/// The variant a `get_sensor_variant` word names.
pub open spec fn variant_of(raw: u16) -> SensorVariant {
    let field = raw as int / 4096;
    if field == 0 {
        SensorVariant::Scd40
    } else if field == 1 {
        SensorVariant::Scd41
    } else if field == 5 {
        SensorVariant::Scd43
    } else {
        SensorVariant::Unknown(field as u8)
    }
}

impl SensorVariant {
    /// Decode the raw word returned by `get_sensor_variant`.
    pub fn from_raw(raw: u16) -> (variant: Self)
        ensures
            variant == variant_of(raw),
    {
        let field = (raw / 4096) as u8;
        match field {
            0 => SensorVariant::Scd40,
            1 => SensorVariant::Scd41,
            5 => SensorVariant::Scd43,
            other => SensorVariant::Unknown(other),
        }
    }
}

/// One complete single-shot result.
///
/// Temperature is `-45 + 175 * raw / 65535` degrees Celsius and relative
/// humidity `100 * raw / 65535` percent; the conversion to physical units is
/// done where floating point is available.
#[derive(Debug, Clone, Copy, PartialEq, Eq)]
pub struct Measurement {
    /// CO2 concentration in ppm, as reported by the sensor.
    pub co2_ppm: u16,
    /// Raw temperature word.
    pub temperature_raw: u16,
    /// Raw humidity word.
    pub humidity_raw: u16,
}

/// Check and decode the reply to a one-word command.
pub fn read_word(raw: &[u8; 3]) -> (word: Result<u16, CrcMismatch>)
    ensures
        match word {
            Ok(word) => all_chunks_ok(raw@) && word == chunk_words(raw@)[0],
            Err(_) => !all_chunks_ok(raw@),
        },
{
    let words = decode_words(raw)?;
    Ok(words[0])
}

/// Check and decode the reply to a three-word command.
pub fn read_three_words(raw: &[u8; 9]) -> (words: Result<[u16; 3], CrcMismatch>)
    ensures
        match words {
            Ok(words) => all_chunks_ok(raw@) && words@ == chunk_words(raw@),
            Err(_) => !all_chunks_ok(raw@),
        },
{
    let words = decode_words(raw)?;
    let triple = [words[0], words[1], words[2]];
    assert(triple@ =~= words@);
    Ok(triple)
}

/// Decode the reply to `read_measurement`: CO2, temperature, humidity.
pub fn measurement_from_reply(raw: &[u8; 9]) -> (measurement: Result<Measurement, CrcMismatch>)
    ensures
        match measurement {
            Ok(m) => all_chunks_ok(raw@) && m.co2_ppm == chunk_words(raw@)[0]
                && m.temperature_raw == chunk_words(raw@)[1] && m.humidity_raw == chunk_words(
                raw@,
            )[2],
            Err(_) => !all_chunks_ok(raw@),
        },
{
    let words = read_three_words(raw)?;
    Ok(Measurement { co2_ppm: words[0], temperature_raw: words[1], humidity_raw: words[2] })
}

/// Decode the reply to `get_serial_number`: three words, most significant
/// first, forming the 48-bit serial number.
pub fn serial_number_from_reply(raw: &[u8; 9]) -> (serial: Result<u64, CrcMismatch>)
    ensures
        match serial {
            Ok(serial) => all_chunks_ok(raw@) && serial == chunk_words(raw@)[0] as int
                * 0x1_0000_0000 + chunk_words(raw@)[1] as int * 0x1_0000 + chunk_words(
                raw@,
            )[2] as int,
            Err(_) => !all_chunks_ok(raw@),
        },
{
    let words = read_three_words(raw)?;
    Ok((words[0] as u64) * 0x1_0000_0000 + (words[1] as u64) * 0x1_0000 + (words[2] as u64))
}

/// The ambient pressure in pascals from the `get_ambient_pressure` word,
/// which the sensor keeps in hectopascals.
pub fn ambient_pressure_pascals(raw: u16) -> (pascals: u32)
    ensures
        pascals == raw as int * 100,
{
    raw as u32 * 100
}

/// Whether automatic self-calibration is on: the sensor returns 1 when it is
/// active and 0 when it is off.
pub fn automatic_self_calibration_enabled(raw: u16) -> (enabled: bool)
    ensures
        enabled == (raw != 0),
{
    raw != 0
}

} // verus!
