//! The Bosch BMM350 three-axis magnetometer: register encodings, the
//! power-management decisions, the decoding of its data registers and the
//! extraction of the per-chip coefficients from its 32 OTP words.
//!
//! The device does not compensate on-chip: the data registers hold raw
//! sign-extended 24-bit counts, and the host corrects them with coefficients
//! packed into one-time-programmable words. Those coefficients are taken out
//! of the words here as signed integers; scaling them to physical units is
//! floating-point work done by the caller.

use vstd::prelude::*;
use crate::registers::{sign_extend, signed_field};

verus! {

/// 7-bit address used when the `ADSEL` pin is pulled low.
pub const DEFAULT_ADDRESS: u8 = 0x14;
/// 7-bit address used when the `ADSEL` pin is pulled high.
pub const ALTERNATE_ADDRESS: u8 = 0x15;

pub const REG_CHIP_ID: u8 = 0x00;
pub const REG_ERR_REG: u8 = 0x02;
pub const REG_PMU_CMD_AGGR_SET: u8 = 0x04;
pub const REG_PMU_CMD_AXIS_EN: u8 = 0x05;
pub const REG_PMU_CMD: u8 = 0x06;
pub const REG_PMU_CMD_STATUS_0: u8 = 0x07;
pub const REG_INT_CTRL: u8 = 0x2E;
pub const REG_INT_STATUS: u8 = 0x30;
/// First of the twelve data bytes: X, Y, Z and temperature, each
/// XLSB/LSB/MSB.
pub const REG_MAG_X_XLSB: u8 = 0x31;
pub const REG_SENSORTIME_XLSB: u8 = 0x3D;
pub const REG_OTP_CMD: u8 = 0x50;
pub const REG_OTP_DATA_MSB: u8 = 0x52;
pub const REG_OTP_STATUS: u8 = 0x55;
pub const REG_CMD: u8 = 0x7E;

/// Value `REG_CHIP_ID` holds on a BMM350.
pub const CHIP_ID: u8 = 0x33;
/// Command written to `REG_CMD` to trigger a software reset.
pub const CMD_SOFT_RESET: u8 = 0xB6;

/// Bytes the device sends ahead of the first real register byte of a read.
pub const DUMMY_BYTES: usize = 2;
/// Number of data bytes holding X, Y, Z and temperature.
pub const MAG_TEMP_DATA_LENGTH: usize = 12;
/// Number of OTP words that hold the per-chip compensation data.
pub const OTP_WORD_COUNT: usize = 32;

pub const PMU_CMD_SUSPEND: u8 = 0x00;
pub const PMU_CMD_NORMAL: u8 = 0x01;
/// Latch a new ODR / averaging / axis-enable setting.
pub const PMU_CMD_UPDATE_ODR_AVG: u8 = 0x02;
pub const PMU_CMD_FORCED: u8 = 0x03;
pub const PMU_CMD_FORCED_FAST: u8 = 0x04;
/// Flux guide reset, the second half of a magnetic reset.
pub const PMU_CMD_FLUX_GUIDE_RESET: u8 = 0x05;
/// Bit reset, the first half of a magnetic reset.
pub const PMU_CMD_BIT_RESET: u8 = 0x07;

/// `odr` and `avg` fields of `REG_PMU_CMD_AGGR_SET`.
pub const AGGR_SET_ODR_MASK: u8 = 0b0000_1111;
pub const AGGR_SET_AVG_MASK: u8 = 0b0011_0000;
/// `en_x`, `en_y` and `en_z` of `REG_PMU_CMD_AXIS_EN`.
pub const AXIS_EN_XYZ_MASK: u8 = 0b0000_0111;
/// `drdy_data_reg_en` of `REG_INT_CTRL`.
pub const INT_CTRL_DRDY_ENABLE_MASK: u8 = 0b1000_0000;
/// `drdy_data_reg` of `REG_INT_STATUS`.
pub const INT_STATUS_DRDY_MASK: u8 = 0b0000_0100;

/// `REG_OTP_CMD` direct-read command; the low five bits carry the word.
pub const OTP_CMD_DIRECT_READ: u8 = 0x20;
pub const OTP_CMD_POWER_OFF: u8 = 0x80;
pub const OTP_WORD_ADDRESS_MASK: u8 = 0x1F;
/// Error code and command-done bits of `REG_OTP_STATUS`.
pub const OTP_STATUS_ERROR_MASK: u8 = 0xE0;
pub const OTP_STATUS_COMMAND_DONE_MASK: u8 = 0x01;

/// Time the device needs after power-on before it accepts commands.
pub const START_UP_DELAY_US: u64 = 3000;
/// Execution time of a software reset.
pub const SOFT_RESET_DELAY_US: u64 = 24000;
/// Settling time after a switch to suspend mode.
pub const GOTO_SUSPEND_DELAY_US: u64 = 6000;
/// Settling time of a switch from suspend to normal mode.
pub const SUSPEND_TO_NORMAL_DELAY_US: u64 = 38000;
/// Execution time of a `PMU_CMD_UPDATE_ODR_AVG`.
pub const UPDATE_ODR_AVG_DELAY_US: u64 = 1000;
/// Execution time of a bit reset.
pub const BIT_RESET_DELAY_US: u64 = 14000;
/// Execution time of a flux guide reset.
pub const FLUX_GUIDE_RESET_DELAY_US: u64 = 18000;
/// Interval between two polls of `REG_OTP_STATUS`.
pub const OTP_POLL_INTERVAL_US: u64 = 300;
/// Polls of `REG_OTP_STATUS` before an OTP read is given up.
pub const OTP_POLL_ATTEMPTS: usize = 40;

/// Errors the device itself can report.
#[derive(Debug, Clone, Copy, PartialEq, Eq)]
pub enum Error {
    /// `REG_CHIP_ID` did not hold `0x33`.
    InvalidChipId(u8),
    /// An OTP read reported an error. Carries the masked `REG_OTP_STATUS`.
    Otp(u8),
    /// An OTP read never reported completion.
    OtpTimeout,
    /// The PMU executed a different command than the one just written.
    UnexpectedPmuCommand {
        /// The command that was written to `REG_PMU_CMD`.
        expected: u8,
        /// The command `REG_PMU_CMD_STATUS_0` reported instead.
        actual: u8,
    },
    /// A configuration disabled all three magnetic axes.
    AllAxesDisabled,
}

/// Rate at which the device measures in normal mode.
#[derive(Debug, Clone, Copy, PartialEq, Eq)]
pub enum DataRate {
    Hz400,
    Hz200,
    Hz100,
    Hz50,
    Hz25,
    Hz12_5,
    Hz6_25,
    Hz3_125,
    Hz1_5625,
}

/// Register encoding of a data rate.
pub open spec fn data_rate_code(rate: DataRate) -> u8 {
    match rate {
        DataRate::Hz400 => 0x02,
        DataRate::Hz200 => 0x03,
        DataRate::Hz100 => 0x04,
        DataRate::Hz50 => 0x05,
        DataRate::Hz25 => 0x06,
        DataRate::Hz12_5 => 0x07,
        DataRate::Hz6_25 => 0x08,
        DataRate::Hz3_125 => 0x09,
        DataRate::Hz1_5625 => 0x0A,
    }
}

impl DataRate {
    /// Register encoding of this setting.
    pub fn raw(self) -> (raw: u8)
        ensures
            raw == data_rate_code(self),
            raw <= 0x0A,
    {
        match self {
            DataRate::Hz400 => 0x02,
            DataRate::Hz200 => 0x03,
            DataRate::Hz100 => 0x04,
            DataRate::Hz50 => 0x05,
            DataRate::Hz25 => 0x06,
            DataRate::Hz12_5 => 0x07,
            DataRate::Hz6_25 => 0x08,
            DataRate::Hz3_125 => 0x09,
            DataRate::Hz1_5625 => 0x0A,
        }
    }
}

/// Number of conversions the device averages into one measurement.
#[derive(Debug, Clone, Copy, PartialEq, Eq)]
pub enum Averaging {
    /// A single conversion per measurement.
    X1,
    X2,
    X4,
    X8,
}

/// Register encoding of an averaging setting; it also orders them.
pub open spec fn averaging_code(averaging: Averaging) -> u8 {
    match averaging {
        Averaging::X1 => 0,
        Averaging::X2 => 1,
        Averaging::X4 => 2,
        Averaging::X8 => 3,
    }
}

impl Averaging {
    /// Register encoding of this setting.
    pub fn raw(self) -> (raw: u8)
        ensures
            raw == averaging_code(self),
            raw <= 3,
    {
        match self {
            Averaging::X1 => 0,
            Averaging::X2 => 1,
            Averaging::X4 => 2,
            Averaging::X8 => 3,
        }
    }

    /// Decode a register field; only its two low bits count, and every one of
    /// the four encodings is valid.
    pub fn from_raw(raw: u8) -> (averaging: Self)
        ensures
            averaging_code(averaging) == raw % 4,
    {
        let low = raw % 4;
        if low == 0 {
            Averaging::X1
        } else if low == 1 {
            Averaging::X2
        } else if low == 2 {
            Averaging::X4
        } else {
            Averaging::X8
        }
    }

    /// The averaging field of a `REG_PMU_CMD_AGGR_SET` value.
    pub fn from_aggr_set(aggr_set: u8) -> (averaging: Self)
        ensures
            averaging_code(averaging) == (aggr_set / 16) % 4,
    {
        let field = (aggr_set & AGGR_SET_AVG_MASK) / 16;
        assert((aggr_set & 0x30) / 16 == (aggr_set / 16) % 4) by (bit_vector);
        Averaging::from_raw(field)
    }
}

/// Power mode held in `REG_PMU_CMD`.
#[derive(Debug, Clone, Copy, PartialEq, Eq)]
pub enum PowerMode {
    /// Idle. The magnetic reset commands are only accepted here.
    Suspend,
    /// Periodic measurements at the configured data rate.
    Normal,
    /// One measurement, after which the device returns to suspend.
    Forced,
    /// Like `Forced`, with a shortened settling phase.
    ForcedFast,
}

/// Register encoding of a power mode.
pub open spec fn power_mode_code(mode: PowerMode) -> u8 {
    match mode {
        PowerMode::Suspend => 0x00,
        PowerMode::Normal => 0x01,
        PowerMode::Forced => 0x03,
        PowerMode::ForcedFast => 0x04,
    }
}

/// How long the device needs to reach a mode and finish the measurement it
/// implies, given the averaging programmed.
pub open spec fn settling_delay(mode: PowerMode, averaging: Averaging) -> u64 {
    match mode {
        PowerMode::Suspend => 6000,
        PowerMode::Normal => 38000,
        PowerMode::Forced => match averaging {
            Averaging::X1 => 15000,
            Averaging::X2 => 17000,
            Averaging::X4 => 20000,
            Averaging::X8 => 28000,
        },
        PowerMode::ForcedFast => match averaging {
            Averaging::X1 => 4000,
            Averaging::X2 => 5000,
            Averaging::X4 => 9000,
            Averaging::X8 => 16000,
        },
    }
}

impl PowerMode {
    /// Register encoding of this mode.
    pub fn raw(self) -> (raw: u8)
        ensures
            raw == power_mode_code(self),
    {
        match self {
            PowerMode::Suspend => PMU_CMD_SUSPEND,
            PowerMode::Normal => PMU_CMD_NORMAL,
            PowerMode::Forced => PMU_CMD_FORCED,
            PowerMode::ForcedFast => PMU_CMD_FORCED_FAST,
        }
    }

    /// How long the device needs to reach this mode and finish the
    /// measurement it implies, given the averaging currently programmed.
    pub fn settling_delay_us(self, averaging: Averaging) -> (delay: u64)
        ensures
            delay == settling_delay(self, averaging),
    {
        match self {
            PowerMode::Suspend => GOTO_SUSPEND_DELAY_US,
            PowerMode::Normal => SUSPEND_TO_NORMAL_DELAY_US,
            PowerMode::Forced => match averaging {
                Averaging::X1 => 15000,
                Averaging::X2 => 17000,
                Averaging::X4 => 20000,
                Averaging::X8 => 28000,
            },
            PowerMode::ForcedFast => match averaging {
                Averaging::X1 => 4000,
                Averaging::X2 => 5000,
                Averaging::X4 => 9000,
                Averaging::X8 => 16000,
            },
        }
    }
}

/// A mode change is only accepted from suspend: whether the device, holding
/// `current` in `REG_PMU_CMD`, has to be driven to suspend first.
pub fn needs_suspend_first(current: u8) -> (needed: bool)
    ensures
        needed == (current == 0x01 || current == 0x02),
{
    current == PMU_CMD_NORMAL || current == PMU_CMD_UPDATE_ODR_AVG
}

/// Which of the three magnetic axes the device measures.
#[derive(Debug, Clone, Copy, PartialEq, Eq)]
pub struct Axes {
    pub x: bool,
    pub y: bool,
    pub z: bool,
}

impl Axes {
    /// All three axes enabled.
    pub fn all() -> (axes: Self)
        ensures
            axes.x && axes.y && axes.z,
    {
        Axes { x: true, y: true, z: true }
    }

    /// Register encoding: `en_x` in bit 0, `en_y` in bit 1, `en_z` in bit 2.
    pub fn raw(self) -> (raw: u8)
        ensures
            raw as int == (if self.x {
                1int
            } else {
                0int
            }) + (if self.y {
                2int
            } else {
                0int
            }) + (if self.z {
                4int
            } else {
                0int
            }),
    {
        let mut raw: u8 = 0;
        if self.x {
            raw = raw + 1;
        }
        if self.y {
            raw = raw + 2;
        }
        if self.z {
            raw = raw + 4;
        }
        raw
    }

    /// Whether at least one axis is enabled.
    pub fn any(self) -> (any: bool)
        ensures
            any == (self.x || self.y || self.z),
    {
        self.x || self.y || self.z
    }
}

impl Default for Axes {
    fn default() -> (axes: Self)
        ensures
            axes.x && axes.y && axes.z,
    {
        Axes::all()
    }
}

/// Refuse a selection that disables all three axes.
pub fn check_axes(axes: Axes) -> (result: Result<(), Error>)
    ensures
        result == if axes.x || axes.y || axes.z {
            Ok::<(), Error>(())
        } else {
            Err(Error::AllAxesDisabled)
        },
{
    if !axes.any() {
        Err(Error::AllAxesDisabled)
    } else {
        Ok(())
    }
}

/// Data rate, averaging, axes and data-ready flag of a configuration.
#[derive(Debug, Clone, Copy, PartialEq, Eq)]
pub struct Configuration {
    /// Measurement rate used in normal mode.
    pub data_rate: DataRate,
    /// Conversions averaged into one measurement.
    pub averaging: Averaging,
    /// Which magnetic axes to measure.
    pub axes: Axes,
    /// Whether finished measurements raise the data-ready flag.
    pub data_ready_status_enabled: bool,
}

impl Default for Configuration {
    /// Slow, heavily averaged one-shot settings, suited to a stationary
    /// sensor that is polled every few seconds.
    fn default() -> (configuration: Self)
        ensures
            configuration.data_rate == DataRate::Hz25,
            configuration.averaging == Averaging::X4,
            configuration.axes.x && configuration.axes.y && configuration.axes.z,
            configuration.data_ready_status_enabled,
    {
        Configuration {
            data_rate: DataRate::Hz25,
            averaging: Averaging::X4,
            axes: Axes::all(),
            data_ready_status_enabled: true,
        }
    }
}

/// The highest averaging that fits into the ODR period of a data rate.
pub open spec fn averaging_limit(rate: DataRate) -> u8 {
    match rate {
        DataRate::Hz400 => 0,
        DataRate::Hz200 => 1,
        DataRate::Hz100 => 2,
        _ => 3,
    }
}

/// Lower an averaging setting that does not fit into the ODR period of
/// `data_rate`, as the device itself would do silently.
pub fn clamp_averaging(data_rate: DataRate, averaging: Averaging) -> (clamped: Averaging)
    ensures
        clamped == clamp_averaging_spec(data_rate, averaging),
        averaging_code(clamped) == if averaging_code(averaging) > averaging_limit(data_rate) {
            averaging_limit(data_rate)
        } else {
            averaging_code(averaging)
        },
{
    let raw = averaging.raw();
    match data_rate {
        DataRate::Hz400 => if raw > 0 {
            Averaging::X1
        } else {
            averaging
        },
        DataRate::Hz200 => if raw > 1 {
            Averaging::X2
        } else {
            averaging
        },
        DataRate::Hz100 => if raw > 2 {
            Averaging::X4
        } else {
            averaging
        },
        _ => averaging,
    }
}

/// The bits written under `AGGR_SET_ODR_MASK | AGGR_SET_AVG_MASK`: the data
/// rate in bits 3:0, the clamped averaging in bits 5:4.
pub fn aggr_set_value(data_rate: DataRate, averaging: Averaging) -> (value: u8)
    ensures
        value as int == data_rate_code(data_rate) as int + 16 * averaging_code(
            clamp_averaging_spec(data_rate, averaging),
        ) as int,
{
    let clamped = clamp_averaging(data_rate, averaging);
    data_rate.raw() + 16 * clamped.raw()
}

/// The averaging [`clamp_averaging`] picks.
pub open spec fn clamp_averaging_spec(data_rate: DataRate, averaging: Averaging) -> Averaging {
    let limit = averaging_limit(data_rate);
    if averaging_code(averaging) > limit {
        if limit == 0 {
            Averaging::X1
        } else if limit == 1 {
            Averaging::X2
        } else {
            Averaging::X4
        }
    } else {
        averaging
    }
}

/// The value to merge into `REG_INT_CTRL` under
/// `INT_CTRL_DRDY_ENABLE_MASK`.
pub fn data_ready_control(enabled: bool) -> (value: u8)
    ensures
        value == if enabled {
            0x80u8
        } else {
            0u8
        },
{
    if enabled {
        INT_CTRL_DRDY_ENABLE_MASK
    } else {
        0
    }
}

/// Whether `REG_INT_STATUS` reports a new measurement.
pub fn data_ready(int_status: u8) -> (ready: bool)
    ensures
        ready == (int_status & 0x04 != 0),
{
    int_status & INT_STATUS_DRDY_MASK != 0
}

/// Accept only the BMM350 chip ID.
pub fn check_chip_id(chip_id: u8) -> (result: Result<(), Error>)
    ensures
        result == if chip_id == 0x33 {
            Ok::<(), Error>(())
        } else {
            Err(Error::InvalidChipId(chip_id))
        },
{
    if chip_id != CHIP_ID {
        Err(Error::InvalidChipId(chip_id))
    } else {
        Ok(())
    }
}

/// Decoded contents of `REG_PMU_CMD_STATUS_0`.
#[derive(Debug, Clone, Copy, PartialEq, Eq)]
pub struct PmuStatus {
    /// The previous command is still being processed.
    pub busy: bool,
    /// The requested data rate was lowered to fit the averaging.
    pub data_rate_overwritten: bool,
    /// The requested averaging was lowered to fit the data rate.
    pub averaging_overwritten: bool,
    /// The device is in normal mode.
    pub normal_mode: bool,
    /// The last value written to `REG_PMU_CMD` was not a legal command.
    pub illegal_command: bool,
    /// The last command the PMU actually executed (bits 7:5).
    pub command_value: u8,
}

impl PmuStatus {
    /// Decode the status byte.
    pub fn from_raw(raw: u8) -> (status: Self)
        ensures
            status.busy == (raw & 0x01 != 0),
            status.data_rate_overwritten == (raw & 0x02 != 0),
            status.averaging_overwritten == (raw & 0x04 != 0),
            status.normal_mode == (raw & 0x08 != 0),
            status.illegal_command == (raw & 0x10 != 0),
            status.command_value == raw / 32,
    {
        PmuStatus {
            busy: raw & 0x01 != 0,
            data_rate_overwritten: raw & 0x02 != 0,
            averaging_overwritten: raw & 0x04 != 0,
            normal_mode: raw & 0x08 != 0,
            illegal_command: raw & 0x10 != 0,
            command_value: raw / 32,
        }
    }
}

/// Confirm that the PMU executed the command just written; the status
/// carries only the low three bits of the command.
pub fn check_pmu_command(command: u8, status: &PmuStatus) -> (result: Result<(), Error>)
    ensures
        result == if status.command_value == command {
            Ok::<(), Error>(())
        } else {
            Err(Error::UnexpectedPmuCommand { expected: command, actual: status.command_value })
        },
{
    if status.command_value != command {
        Err(Error::UnexpectedPmuCommand { expected: command, actual: status.command_value })
    } else {
        Ok(())
    }
}

/// The `REG_OTP_CMD` value that reads OTP word `word_address`; only its low
/// five bits are used.
pub fn otp_read_command(word_address: u8) -> (command: u8)
    ensures
        command as int == 0x20 + word_address as int % 32,
{
    let address = word_address & OTP_WORD_ADDRESS_MASK;
    assert(word_address & 0x1F == word_address % 32) by (bit_vector);
    assert(0x20u8 | address == 0x20 + address) by (bit_vector)
        requires
            address < 32,
    ;
    OTP_CMD_DIRECT_READ | address
}

/// What one poll of `REG_OTP_STATUS` says about an OTP read in progress.
#[derive(Debug, Clone, Copy, PartialEq, Eq)]
pub enum OtpPoll {
    /// The read failed with the given error code.
    Failed(u8),
    /// The word can be read from the data registers.
    Done,
    /// Still running; poll again.
    Pending,
}

/// Interpret an OTP status byte: an error code wins over the done flag.
pub fn otp_poll(status: u8) -> (poll: OtpPoll)
    ensures
        poll == if status & 0xE0 != 0 {
            OtpPoll::Failed(status & 0xE0)
        } else if status & 0x01 != 0 {
            OtpPoll::Done
        } else {
            OtpPoll::Pending
        },
{
    let error = status & OTP_STATUS_ERROR_MASK;
    if error != 0 {
        OtpPoll::Failed(error)
    } else if status & OTP_STATUS_COMMAND_DONE_MASK != 0 {
        OtpPoll::Done
    } else {
        OtpPoll::Pending
    }
}

/// The error an OTP read ends with once every poll was used up or one of
/// them failed; `None` while the read can go on.
pub fn otp_poll_outcome(poll: OtpPoll, attempt: usize) -> (outcome: Option<Error>)
    ensures
        outcome == match poll {
            OtpPoll::Failed(code) => Some(Error::Otp(code)),
            OtpPoll::Done => None,
            OtpPoll::Pending => if attempt + 1 >= 40 {
                Some(Error::OtpTimeout)
            } else {
                None
            },
        },
{
    match poll {
        OtpPoll::Failed(code) => Some(Error::Otp(code)),
        OtpPoll::Done => None,
        OtpPoll::Pending => if attempt >= OTP_POLL_ATTEMPTS - 1 {
            Some(Error::OtpTimeout)
        } else {
            None
        },
    }
}

/// One set of data registers, sign-extended but otherwise untouched.
#[derive(Debug, Clone, Copy, PartialEq, Eq)]
pub struct RawMeasurement {
    /// Sign-extended 24-bit X count.
    pub x: i32,
    /// Sign-extended 24-bit Y count.
    pub y: i32,
    /// Sign-extended 24-bit Z count.
    pub z: i32,
    /// Sign-extended 24-bit temperature count.
    pub temperature: i32,
}

/// Little-endian value of the three bytes at `offset`.
pub open spec fn le24_at(bytes: Seq<u8>, offset: int) -> int {
    bytes[offset] as int + 256 * bytes[offset + 1] as int + 65536 * bytes[offset + 2] as int
}

/// Sign-extended little-endian 24-bit word of three bytes.
fn signed_word(b0: u8, b1: u8, b2: u8) -> (value: i32)
    ensures
        value == signed_field(b0 as int + 256 * b1 as int + 65536 * b2 as int, 24),
{
    sign_extend(b0 as u32 + 256 * (b1 as u32) + 65536 * (b2 as u32), 24)
}

/// Decode the twelve data bytes: X, Y, Z and temperature, each
/// XLSB/LSB/MSB.
pub fn raw_measurement_from_data(raw: &[u8; 12]) -> (measurement: RawMeasurement)
    ensures
        measurement.x == signed_field(le24_at(raw@, 0), 24),
        measurement.y == signed_field(le24_at(raw@, 3), 24),
        measurement.z == signed_field(le24_at(raw@, 6), 24),
        measurement.temperature == signed_field(le24_at(raw@, 9), 24),
{
    RawMeasurement {
        x: signed_word(raw[0], raw[1], raw[2]),
        y: signed_word(raw[3], raw[4], raw[5]),
        z: signed_word(raw[6], raw[7], raw[8]),
        temperature: signed_word(raw[9], raw[10], raw[11]),
    }
}

/// The free-running 24-bit sensor time counter, from its three bytes.
pub fn sensor_time_from_bytes(raw: &[u8; 3]) -> (ticks: u32)
    ensures
        ticks as int == le24_at(raw@, 0),
{
    raw[0] as u32 + 256 * (raw[1] as u32) + 65536 * (raw[2] as u32)
}

/// An OTP word from its two data bytes, most significant first.
pub fn otp_word_from_bytes(msb: u8, lsb: u8) -> (word: u16)
    ensures
        word as int == 256 * msb as int + lsb as int,
{
    256 * (msb as u16) + lsb as u16
}

/// The per-chip coefficients as the signed integers the OTP words hold.
///
/// Scale factors to physical units: offsets are in microtesla as they are;
/// sensitivities are in 1/256, offset temperature coefficients in 1/32 and
/// sensitivity temperature coefficients in 1/16384; the temperature offset is
/// in 1/5 degree and its sensitivity in 1/512; the reference temperature is
/// `23 + value / 512` degrees; the cross-axis terms are in 1/800.
#[derive(Debug, Clone, Copy, PartialEq, Eq)]
pub struct OtpCoefficients {
    /// Additive offset of the X, Y and Z axes (12-bit fields).
    pub offset: [i32; 3],
    /// Relative sensitivity error of the three axes (8-bit fields).
    pub sensitivity: [i32; 3],
    /// Temperature coefficient of the offset (8-bit fields).
    pub tco: [i32; 3],
    /// Temperature coefficient of the sensitivity (8-bit fields).
    pub tcs: [i32; 3],
    /// Additive offset of the temperature channel (8-bit field).
    pub temperature_offset: i32,
    /// Relative sensitivity error of the temperature channel (8-bit field).
    pub temperature_sensitivity: i32,
    /// Reference temperature (16-bit field).
    pub reference_temperature: i32,
    /// Fraction of Y leaking into X, of X into Y, of X into Z, of Y into Z.
    pub cross_x_y: i32,
    pub cross_y_x: i32,
    pub cross_z_x: i32,
    pub cross_z_y: i32,
    /// Variant ID of the part, bits 14:9 of word 30.
    pub variant_id: u8,
}

/// Low byte of an OTP word.
pub open spec fn low_byte(word: u16) -> int {
    word as int % 256
}

/// High byte of an OTP word.
pub open spec fn high_byte(word: u16) -> int {
    word as int / 256
}

/// Signed value of the low byte of a word.
fn signed_low(word: u16) -> (value: i32)
    ensures
        value == signed_field(low_byte(word), 8),
{
    sign_extend((word % 256) as u32, 8)
}

/// Signed value of the high byte of a word.
fn signed_high(word: u16) -> (value: i32)
    ensures
        value == signed_field(high_byte(word), 8),
{
    sign_extend((word / 256) as u32, 8)
}

/// The three packed 12-bit offset fields: X is word 14 bits 11:0; Y takes its
/// top nibble from bits 15:12 of word 14 and its low byte from word 15; Z
/// takes its top nibble from bits 11:8 of word 15 and its low byte from word
/// 16.
pub open spec fn offset_fields(w14: u16, w15: u16, w16: u16) -> (int, int, int) {
    (
        w14 as int % 4096,
        (w14 as int / 4096) * 256 + w15 as int % 256,
        ((w15 as int / 256) % 16) * 256 + w16 as int % 256,
    )
}

impl OtpCoefficients {
    /// Take the coefficients out of the 32 OTP words.
    pub fn from_otp(otp: &[u16; 32]) -> (coefficients: Self)
        ensures
            coefficients.offset[0] == signed_field(offset_fields(otp[14], otp[15], otp[16]).0, 12),
            coefficients.offset[1] == signed_field(offset_fields(otp[14], otp[15], otp[16]).1, 12),
            coefficients.offset[2] == signed_field(offset_fields(otp[14], otp[15], otp[16]).2, 12),
            coefficients.sensitivity[0] == signed_field(high_byte(otp[16]), 8),
            coefficients.sensitivity[1] == signed_field(low_byte(otp[17]), 8),
            coefficients.sensitivity[2] == signed_field(high_byte(otp[17]), 8),
            coefficients.tco[0] == signed_field(low_byte(otp[18]), 8),
            coefficients.tco[1] == signed_field(low_byte(otp[19]), 8),
            coefficients.tco[2] == signed_field(low_byte(otp[20]), 8),
            coefficients.tcs[0] == signed_field(high_byte(otp[18]), 8),
            coefficients.tcs[1] == signed_field(high_byte(otp[19]), 8),
            coefficients.tcs[2] == signed_field(high_byte(otp[20]), 8),
            coefficients.temperature_offset == signed_field(low_byte(otp[13]), 8),
            coefficients.temperature_sensitivity == signed_field(high_byte(otp[13]), 8),
            coefficients.reference_temperature == signed_field(otp[24] as int, 16),
            coefficients.cross_x_y == signed_field(low_byte(otp[21]), 8),
            coefficients.cross_y_x == signed_field(high_byte(otp[21]), 8),
            coefficients.cross_z_x == signed_field(low_byte(otp[22]), 8),
            coefficients.cross_z_y == signed_field(high_byte(otp[22]), 8),
            coefficients.variant_id as int == (otp[30] as int / 512) % 64,
    {
        let offset_x = (otp[14] % 4096) as u32;
        let offset_y = ((otp[14] / 4096) as u32) * 256 + (otp[15] % 256) as u32;
        let offset_z = (((otp[15] / 256) % 16) as u32) * 256 + (otp[16] % 256) as u32;
        OtpCoefficients {
            offset: [sign_extend(offset_x, 12), sign_extend(offset_y, 12), sign_extend(offset_z, 12)],
            sensitivity: [signed_high(otp[16]), signed_low(otp[17]), signed_high(otp[17])],
            tco: [signed_low(otp[18]), signed_low(otp[19]), signed_low(otp[20])],
            tcs: [signed_high(otp[18]), signed_high(otp[19]), signed_high(otp[20])],
            temperature_offset: signed_low(otp[13]),
            temperature_sensitivity: signed_high(otp[13]),
            reference_temperature: sign_extend(otp[24] as u32, 16),
            cross_x_y: signed_low(otp[21]),
            cross_y_x: signed_high(otp[21]),
            cross_z_x: signed_low(otp[22]),
            cross_z_y: signed_high(otp[22]),
            variant_id: ((otp[30] / 512) % 64) as u8,
        }
    }
}

} // verus!
