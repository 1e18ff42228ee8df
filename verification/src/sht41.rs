//! The Sensirion SHT41 temperature / humidity sensor: its commands, their
//! execution times, and the decoding of its replies.
//!
//! The SHT4x family has no register map: every transaction is a single command
//! byte, followed by the datasheet execution time, followed by a read of the
//! result. A measurement returns two words, each followed by a CRC-8.

use vstd::prelude::*;
use crate::sensirion::{decode_words, all_chunks_ok, chunk_words, CrcMismatch};

verus! {

/// Factory-default 7-bit address of the SHT41.
pub const DEFAULT_ADDRESS: u8 = 0x44;
/// Alternative 7-bit address of the SHT41-B variant.
pub const ALTERNATIVE_ADDRESS: u8 = 0x45;

pub const CMD_MEASURE_HIGH_PRECISION: u8 = 0xFD;
pub const CMD_MEASURE_MEDIUM_PRECISION: u8 = 0xF6;
pub const CMD_MEASURE_LOW_PRECISION: u8 = 0xE0;
pub const CMD_READ_SERIAL_NUMBER: u8 = 0x89;
pub const CMD_SOFT_RESET: u8 = 0x94;
pub const CMD_HEATER_200MW_1S: u8 = 0x39;
pub const CMD_HEATER_200MW_100MS: u8 = 0x32;
pub const CMD_HEATER_110MW_1S: u8 = 0x2F;
pub const CMD_HEATER_110MW_100MS: u8 = 0x24;
pub const CMD_HEATER_20MW_1S: u8 = 0x1E;
pub const CMD_HEATER_20MW_100MS: u8 = 0x15;

/// Maximum conversion time of a high-precision measurement (8.3 ms), rounded up.
pub const HIGH_PRECISION_MEASUREMENT_DELAY_MS: u64 = 10;
/// Maximum conversion time of a medium-precision measurement (4.5 ms).
pub const MEDIUM_PRECISION_MEASUREMENT_DELAY_MS: u64 = 5;
/// Maximum conversion time of a low-precision measurement (1.6 ms).
pub const LOW_PRECISION_MEASUREMENT_DELAY_MS: u64 = 2;
/// Execution time of a soft reset (1 ms).
pub const SOFT_RESET_DELAY_MS: u64 = 2;
/// Execution time of reading the serial number.
pub const SHORT_COMMAND_DELAY_MS: u64 = 1;
/// Heater on-time of the long heater pulses, plus the trailing measurement.
pub const HEATER_LONG_PULSE_DELAY_MS: u64 = 1100;
/// Heater on-time of the short heater pulses, plus the trailing measurement.
pub const HEATER_SHORT_PULSE_DELAY_MS: u64 = 110;

/// Bytes one two-word reply occupies: two words, each with its CRC.
pub const TWO_WORD_REPLY_LEN: usize = 6;

/// Repeatability of a measurement, trading noise against time and energy.
#[derive(Debug, Clone, Copy, PartialEq, Eq)]
pub enum Precision {
    /// 0xFD, lowest noise, longest conversion.
    High,
    /// 0xF6.
    Medium,
    /// 0xE0, highest noise, shortest conversion.
    Low,
}

impl Precision {
    /// The command byte that starts a measurement at this repeatability.
    pub fn command(self) -> (command: u8)
        ensures
            command == match self {
                Precision::High => 0xFDu8,
                Precision::Medium => 0xF6u8,
                Precision::Low => 0xE0u8,
            },
    {
        match self {
            Precision::High => CMD_MEASURE_HIGH_PRECISION,
            Precision::Medium => CMD_MEASURE_MEDIUM_PRECISION,
            Precision::Low => CMD_MEASURE_LOW_PRECISION,
        }
    }

    /// How long the conversion takes before the result can be read.
    pub fn conversion_delay_ms(self) -> (delay: u64)
        ensures
            delay == match self {
                Precision::High => 10u64,
                Precision::Medium => 5u64,
                Precision::Low => 2u64,
            },
    {
        match self {
            Precision::High => HIGH_PRECISION_MEASUREMENT_DELAY_MS,
            Precision::Medium => MEDIUM_PRECISION_MEASUREMENT_DELAY_MS,
            Precision::Low => LOW_PRECISION_MEASUREMENT_DELAY_MS,
        }
    }
}

/// Heater power and on-time of one heater pulse.
///
/// The heater is only meant for short pulses; the datasheet limits the duty
/// cycle to 5 %. Every heater command ends with a high-precision measurement
/// taken while the heater is still on.
#[derive(Debug, Clone, Copy, PartialEq, Eq)]
pub enum HeaterPulse {
    /// 200 mW for 1 s.
    Power200mW1s,
    /// 200 mW for 0.1 s.
    Power200mW100ms,
    /// 110 mW for 1 s.
    Power110mW1s,
    /// 110 mW for 0.1 s.
    Power110mW100ms,
    /// 20 mW for 1 s.
    Power20mW1s,
    /// 20 mW for 0.1 s.
    Power20mW100ms,
}

impl HeaterPulse {
    /// The command byte that fires this pulse.
    pub fn command(self) -> (command: u8)
        ensures
            command == match self {
                HeaterPulse::Power200mW1s => 0x39u8,
                HeaterPulse::Power200mW100ms => 0x32u8,
                HeaterPulse::Power110mW1s => 0x2Fu8,
                HeaterPulse::Power110mW100ms => 0x24u8,
                HeaterPulse::Power20mW1s => 0x1Eu8,
                HeaterPulse::Power20mW100ms => 0x15u8,
            },
    {
        match self {
            HeaterPulse::Power200mW1s => CMD_HEATER_200MW_1S,
            HeaterPulse::Power200mW100ms => CMD_HEATER_200MW_100MS,
            HeaterPulse::Power110mW1s => CMD_HEATER_110MW_1S,
            HeaterPulse::Power110mW100ms => CMD_HEATER_110MW_100MS,
            HeaterPulse::Power20mW1s => CMD_HEATER_20MW_1S,
            HeaterPulse::Power20mW100ms => CMD_HEATER_20MW_100MS,
        }
    }

    /// How long the pulse and its trailing measurement take.
    pub fn execution_delay_ms(self) -> (delay: u64)
        ensures
            delay == match self {
                HeaterPulse::Power200mW1s | HeaterPulse::Power110mW1s
                | HeaterPulse::Power20mW1s => 1100u64,
                _ => 110u64,
            },
    {
        match self {
            HeaterPulse::Power200mW1s | HeaterPulse::Power110mW1s | HeaterPulse::Power20mW1s => {
                HEATER_LONG_PULSE_DELAY_MS
            },
            HeaterPulse::Power200mW100ms
            | HeaterPulse::Power110mW100ms
            | HeaterPulse::Power20mW100ms => HEATER_SHORT_PULSE_DELAY_MS,
        }
    }
}

/// One complete temperature / humidity result, as raw words.
///
/// Temperature is `-45 + 175 * raw / 65535` degrees Celsius and relative
/// humidity `-6 + 125 * raw / 65535` percent; the conversion to physical
/// units is done where floating point is available.
#[derive(Debug, Clone, Copy, PartialEq, Eq)]
pub struct Measurement {
    /// Raw temperature word.
    pub temperature_raw: u16,
    /// Raw humidity word.
    pub humidity_raw: u16,
}

/// Check and decode the two words of a reply.
pub fn read_two_words(raw: &[u8; 6]) -> (words: Result<[u16; 2], CrcMismatch>)
    ensures
        match words {
            Ok(words) => all_chunks_ok(raw@) && words@ == chunk_words(raw@),
            Err(_) => !all_chunks_ok(raw@),
        },
{
    match decode_words(raw) {
        Ok(words) => {
            assert(words@.len() == 2);
            let pair = [words[0], words[1]];
            assert(pair@ =~= words@);
            Ok(pair)
        },
        Err(error) => Err(error),
    }
}

/// Decode the reply to a measurement or heater command.
pub fn measurement_from_reply(raw: &[u8; 6]) -> (measurement: Result<Measurement, CrcMismatch>)
    ensures
        match measurement {
            Ok(m) => all_chunks_ok(raw@) && m.temperature_raw == chunk_words(raw@)[0]
                && m.humidity_raw == chunk_words(raw@)[1],
            Err(_) => !all_chunks_ok(raw@),
        },
{
    let words = read_two_words(raw)?;
    Ok(Measurement { temperature_raw: words[0], humidity_raw: words[1] })
}

/// Decode the reply to the serial-number command: the first word is the
/// high half of the 32-bit serial number.
pub fn serial_number_from_reply(raw: &[u8; 6]) -> (serial: Result<u32, CrcMismatch>)
    ensures
        match serial {
            Ok(serial) => all_chunks_ok(raw@) && serial == chunk_words(raw@)[0] as int * 65536
                + chunk_words(raw@)[1] as int,
            Err(_) => !all_chunks_ok(raw@),
        },
{
    let words = read_two_words(raw)?;
    Ok((words[0] as u32) * 65536 + (words[1] as u32))
}

} // verus!
