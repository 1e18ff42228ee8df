//! The Bosch BMP581 barometric pressure / temperature sensor: register
//! encodings, configuration values, and the decoding of its data registers.
//!
//! The BMP581 compensates on-chip: the data registers hold a 24-bit
//! two's-complement temperature in 1/65536 degrees Celsius and a 24-bit
//! unsigned pressure in 1/64 pascal, least significant byte first.

use vstd::prelude::*;

verus! {

/// 7-bit address used when `SDO` is pulled low.
pub const DEFAULT_ADDRESS: u8 = 0x46;
/// 7-bit address used when `SDO` is pulled high.
pub const ALTERNATE_ADDRESS: u8 = 0x47;

pub const REG_CHIP_ID: u8 = 0x01;
pub const REG_REV_ID: u8 = 0x02;
pub const REG_INT_SOURCE: u8 = 0x15;
/// First of the six data bytes: temperature XLSB/LSB/MSB then pressure
/// XLSB/LSB/MSB.
pub const REG_TEMP_DATA_XLSB: u8 = 0x1D;
pub const REG_INT_STATUS: u8 = 0x27;
pub const REG_STATUS: u8 = 0x28;
pub const REG_DSP_CONFIG: u8 = 0x30;
pub const REG_DSP_IIR: u8 = 0x31;
pub const REG_OSR_CONFIG: u8 = 0x36;
pub const REG_ODR_CONFIG: u8 = 0x37;
pub const REG_OSR_EFF: u8 = 0x38;
pub const REG_CMD: u8 = 0x7E;

/// Value `REG_CHIP_ID` holds on a BMP581.
pub const CHIP_ID_PRIMARY: u8 = 0x50;
/// Second chip ID the BMP5 family reports; accepted as well.
pub const CHIP_ID_SECONDARY: u8 = 0x51;
/// Command that triggers a full software reset, written to `REG_CMD`.
pub const CMD_SOFT_RESET: u8 = 0xB6;

pub const OSR_CONFIG_OSR_T_MASK: u8 = 0b0000_0111;
pub const OSR_CONFIG_OSR_P_MASK: u8 = 0b0011_1000;
pub const OSR_CONFIG_PRESS_EN_MASK: u8 = 0b0100_0000;
pub const ODR_CONFIG_POWER_MODE_MASK: u8 = 0b0000_0011;
pub const ODR_CONFIG_DEEP_DISABLE_MASK: u8 = 0b1000_0000;
pub const DSP_IIR_SET_IIR_T_MASK: u8 = 0b0000_0111;
pub const DSP_IIR_SET_IIR_P_MASK: u8 = 0b0011_1000;
pub const DSP_CONFIG_IIR_FLUSH_FORCED_EN_MASK: u8 = 0b0000_0100;
pub const DSP_CONFIG_SHDW_SEL_IIR_T_MASK: u8 = 0b0000_1000;
pub const DSP_CONFIG_SHDW_SEL_IIR_P_MASK: u8 = 0b0010_0000;
pub const INT_SOURCE_DRDY_EN_MASK: u8 = 0b0000_0001;
pub const INT_STATUS_DRDY_MASK: u8 = 0b0000_0001;
pub const INT_STATUS_POR_MASK: u8 = 0b0001_0000;
pub const STATUS_NVM_RDY_MASK: u8 = 0b0000_0010;
pub const STATUS_NVM_ERR_MASK: u8 = 0b0000_0100;
pub const OSR_EFF_ODR_IS_VALID_MASK: u8 = 0b1000_0000;

/// Execution time of a software reset.
pub const SOFT_RESET_DELAY_US: u32 = 2000;
/// Settling time the device needs to reach standby after a mode change.
pub const STANDBY_DELAY_US: u32 = 2500;
/// How often a forced measurement polls `drdy_data_reg`.
pub const MEASUREMENT_POLL_INTERVAL_MS: u64 = 2;
/// How long a forced measurement waits for `drdy_data_reg` before giving up.
pub const MEASUREMENT_TIMEOUT_MS: u64 = 200;

/// Oversampling applied to the temperature or pressure channel.
#[derive(Debug, Clone, Copy, PartialEq, Eq)]
pub enum Oversampling {
    X1,
    X2,
    X4,
    X8,
    X16,
    X32,
    X64,
    X128,
}

/// Register encoding of an oversampling setting.
pub open spec fn oversampling_code(o: Oversampling) -> u8 {
    match o {
        Oversampling::X1 => 0,
        Oversampling::X2 => 1,
        Oversampling::X4 => 2,
        Oversampling::X8 => 3,
        Oversampling::X16 => 4,
        Oversampling::X32 => 5,
        Oversampling::X64 => 6,
        Oversampling::X128 => 7,
    }
}

/// The number of samples a setting's name announces: `X32` averages 32.
pub open spec fn announced_samples(o: Oversampling) -> nat {
    match o {
        Oversampling::X1 => 1,
        Oversampling::X2 => 2,
        Oversampling::X4 => 4,
        Oversampling::X8 => 8,
        Oversampling::X16 => 16,
        Oversampling::X32 => 32,
        Oversampling::X64 => 64,
        Oversampling::X128 => 128,
    }
}

/// The register code of a setting is the base-2 logarithm of the number of
/// samples its name announces, so the factor written to and read back from
/// the device is that number; and a higher code always means more samples.
pub proof fn lemma_code_is_log2_of_samples(a: Oversampling, b: Oversampling)
    ensures
        vstd::arithmetic::power2::pow2(oversampling_code(a) as nat) == announced_samples(a),
        oversampling_code(a) < oversampling_code(b) <==> announced_samples(a) < announced_samples(
            b,
        ),
{
    vstd::arithmetic::power2::lemma2_to64();
}

impl Oversampling {
    /// Register encoding of this setting.
    pub fn raw(self) -> (raw: u8)
        ensures
            raw == oversampling_code(self),
    {
        match self {
            Oversampling::X1 => 0,
            Oversampling::X2 => 1,
            Oversampling::X4 => 2,
            Oversampling::X8 => 3,
            Oversampling::X16 => 4,
            Oversampling::X32 => 5,
            Oversampling::X64 => 6,
            Oversampling::X128 => 7,
        }
    }

    /// Number of conversions averaged into one measurement: `2^raw`.
    pub fn factor(self) -> (factor: u16)
        ensures
            factor == vstd::arithmetic::power2::pow2(oversampling_code(self) as nat),
    {
        proof {
            vstd::arithmetic::power2::lemma2_to64();
        }
        match self {
            Oversampling::X1 => 1,
            Oversampling::X2 => 2,
            Oversampling::X4 => 4,
            Oversampling::X8 => 8,
            Oversampling::X16 => 16,
            Oversampling::X32 => 32,
            Oversampling::X64 => 64,
            Oversampling::X128 => 128,
        }
    }

    /// Decode a register field; every one of the eight encodings is valid, so
    /// only the low three bits are looked at.
    pub fn from_raw(raw: u8) -> (oversampling: Self)
        ensures
            oversampling_code(oversampling) == raw % 8,
    {
        match raw % 8 {
            0 => Oversampling::X1,
            1 => Oversampling::X2,
            2 => Oversampling::X4,
            3 => Oversampling::X8,
            4 => Oversampling::X16,
            5 => Oversampling::X32,
            6 => Oversampling::X64,
            _ => Oversampling::X128,
        }
    }
}

/// Coefficient of the on-chip IIR low-pass filter.
#[derive(Debug, Clone, Copy, PartialEq, Eq)]
pub enum IirFilter {
    /// Filter disabled; the data registers hold the unfiltered measurement.
    Bypass,
    Coefficient1,
    Coefficient3,
    Coefficient7,
    Coefficient15,
    Coefficient31,
    Coefficient63,
    Coefficient127,
}

/// Register encoding of a filter setting.
pub open spec fn filter_code(f: IirFilter) -> u8 {
    match f {
        IirFilter::Bypass => 0,
        IirFilter::Coefficient1 => 1,
        IirFilter::Coefficient3 => 2,
        IirFilter::Coefficient7 => 3,
        IirFilter::Coefficient15 => 4,
        IirFilter::Coefficient31 => 5,
        IirFilter::Coefficient63 => 6,
        IirFilter::Coefficient127 => 7,
    }
}

impl IirFilter {
    /// Register encoding of this setting.
    pub fn raw(self) -> (raw: u8)
        ensures
            raw == filter_code(self),
    {
        match self {
            IirFilter::Bypass => 0,
            IirFilter::Coefficient1 => 1,
            IirFilter::Coefficient3 => 2,
            IirFilter::Coefficient7 => 3,
            IirFilter::Coefficient15 => 4,
            IirFilter::Coefficient31 => 5,
            IirFilter::Coefficient63 => 6,
            IirFilter::Coefficient127 => 7,
        }
    }

    /// Decode a register field; only the low three bits are looked at.
    pub fn from_raw(raw: u8) -> (filter: Self)
        ensures
            filter_code(filter) == raw % 8,
    {
        match raw % 8 {
            0 => IirFilter::Bypass,
            1 => IirFilter::Coefficient1,
            2 => IirFilter::Coefficient3,
            3 => IirFilter::Coefficient7,
            4 => IirFilter::Coefficient15,
            5 => IirFilter::Coefficient31,
            6 => IirFilter::Coefficient63,
            _ => IirFilter::Coefficient127,
        }
    }
}

/// Power mode held in `pwr_mode[1:0]` of `REG_ODR_CONFIG`.
#[derive(Debug, Clone, Copy, PartialEq, Eq)]
pub enum PowerMode {
    /// Idle; the configuration registers are writable only in this mode.
    Standby,
    /// Periodic measurements at the configured ODR.
    Normal,
    /// One measurement, after which the device returns to standby by itself.
    Forced,
    /// Back-to-back measurements, ignoring the ODR.
    Continuous,
}

/// Register encoding of a power mode.
pub open spec fn power_mode_code(m: PowerMode) -> u8 {
    match m {
        PowerMode::Standby => 0,
        PowerMode::Normal => 1,
        PowerMode::Forced => 2,
        PowerMode::Continuous => 3,
    }
}

impl PowerMode {
    /// Register encoding of this mode.
    pub fn raw(self) -> (raw: u8)
        ensures
            raw == power_mode_code(self),
    {
        match self {
            PowerMode::Standby => 0,
            PowerMode::Normal => 1,
            PowerMode::Forced => 2,
            PowerMode::Continuous => 3,
        }
    }

    /// Decode `REG_ODR_CONFIG`; only the mode bits are looked at.
    pub fn from_raw(raw: u8) -> (mode: Self)
        ensures
            power_mode_code(mode) == raw % 4,
    {
        match raw % 4 {
            0 => PowerMode::Standby,
            1 => PowerMode::Normal,
            2 => PowerMode::Forced,
            _ => PowerMode::Continuous,
        }
    }
}

/// Settings applied when the sensor is initialised.
#[derive(Debug, Clone, Copy, PartialEq, Eq)]
pub struct Configuration {
    /// Oversampling of the temperature channel.
    pub temperature_oversampling: Oversampling,
    /// Oversampling of the pressure channel.
    pub pressure_oversampling: Oversampling,
    /// Whether the pressure channel is measured at all.
    pub pressure_enabled: bool,
    /// IIR filter applied to the temperature channel.
    pub temperature_filter: IirFilter,
    /// IIR filter applied to the pressure channel.
    pub pressure_filter: IirFilter,
    /// Whether to flush the IIR filter before each forced measurement.
    pub flush_filter_on_forced: bool,
}

impl Configuration {
    /// Pressure-oriented one-shot settings: heavy oversampling on pressure,
    /// light oversampling on temperature, and no IIR filtering.
    pub fn default() -> (configuration: Self)
        ensures
            configuration == (Configuration {
                temperature_oversampling: Oversampling::X1,
                pressure_oversampling: Oversampling::X16,
                pressure_enabled: true,
                temperature_filter: IirFilter::Bypass,
                pressure_filter: IirFilter::Bypass,
                flush_filter_on_forced: true,
            }),
    {
        Configuration {
            temperature_oversampling: Oversampling::X1,
            pressure_oversampling: Oversampling::X16,
            pressure_enabled: true,
            temperature_filter: IirFilter::Bypass,
            pressure_filter: IirFilter::Bypass,
            flush_filter_on_forced: true,
        }
    }

    /// The bits this configuration owns in `REG_OSR_CONFIG`: temperature
    /// oversampling in 2:0, pressure oversampling in 5:3, `press_en` in 6.
    pub fn osr_config(&self) -> (value: u8)
        ensures
            value as int == oversampling_code(self.temperature_oversampling) as int + 8
                * oversampling_code(self.pressure_oversampling) as int + if self.pressure_enabled {
                64int
            } else {
                0int
            },
    {
        let mut value = self.temperature_oversampling.raw() + 8 * self.pressure_oversampling.raw();
        if self.pressure_enabled {
            value = value + 64;
        }
        value
    }

    /// The bits this configuration owns in `REG_DSP_IIR`: temperature filter
    /// in 2:0, pressure filter in 5:3.
    pub fn dsp_iir(&self) -> (value: u8)
        ensures
            value as int == filter_code(self.temperature_filter) as int + 8 * filter_code(
                self.pressure_filter,
            ) as int,
    {
        self.temperature_filter.raw() + 8 * self.pressure_filter.raw()
    }

    /// The bits this configuration owns in `REG_DSP_CONFIG`: the filtered
    /// values are routed into the data registers whenever a filter is
    /// enabled, and the filter is flushed before forced measurements if
    /// asked for.
    pub fn dsp_config(&self) -> (value: u8)
        ensures
            value as int == (if self.flush_filter_on_forced {
                4int
            } else {
                0int
            }) + (if self.temperature_filter != IirFilter::Bypass {
                8int
            } else {
                0int
            }) + (if self.pressure_filter != IirFilter::Bypass {
                32int
            } else {
                0int
            }),
    {
        let mut value: u8 = 0;
        if self.flush_filter_on_forced {
            value = value + 4;
        }
        if !matches!(self.temperature_filter, IirFilter::Bypass) {
            value = value + 8;
        }
        if !matches!(self.pressure_filter, IirFilter::Bypass) {
            value = value + 32;
        }
        value
    }
}

/// The bits written to `REG_ODR_CONFIG` to select `mode` while keeping deep
/// standby disabled: a standby with a slow ODR, a bypassed IIR filter and a
/// disabled FIFO would otherwise turn into deep standby and drop the
/// configuration.
pub fn power_mode_bits(mode: PowerMode) -> (value: u8)
    ensures
        value as int == 128 + power_mode_code(mode) as int,
{
    let raw = mode.raw();
    assert(0x80u8 | raw == 128 + raw) by (bit_vector)
        requires raw < 4;
    ODR_CONFIG_DEEP_DISABLE_MASK | raw
}

/// Contents of the identification registers.
#[derive(Debug, Clone, Copy, PartialEq, Eq)]
pub struct Identification {
    /// `REG_CHIP_ID`.
    pub chip_id: u8,
    /// `REG_REV_ID`, the mask revision.
    pub rev_id: u8,
}

/// Oversampling the device actually applied, read back from `REG_OSR_EFF`.
#[derive(Debug, Clone, Copy, PartialEq, Eq)]
pub struct EffectiveOversampling {
    pub temperature: Oversampling,
    pub pressure: Oversampling,
    /// Whether the configured ODR period is long enough for the requested
    /// oversampling.
    pub odr_is_valid: bool,
}

impl EffectiveOversampling {
    /// Decode `REG_OSR_EFF`: temperature in bits 2:0, pressure in 5:3,
    /// `odr_is_valid` in bit 7.
    pub fn from_raw(raw: u8) -> (effective: Self)
        ensures
            oversampling_code(effective.temperature) == raw % 8,
            oversampling_code(effective.pressure) == (raw / 8) % 8,
            effective.odr_is_valid == (raw >= 128),
    {
        EffectiveOversampling {
            temperature: Oversampling::from_raw(raw % 8),
            pressure: Oversampling::from_raw((raw / 8) % 8),
            odr_is_valid: raw >= 128,
        }
    }
}

/// One complete forced-mode result, straight out of the data registers.
///
/// Temperature is `raw / 65536` degrees Celsius and pressure `raw / 64`
/// pascals; the conversion to physical units is done where floating point is
/// available.
#[derive(Debug, Clone, Copy, PartialEq, Eq)]
pub struct Measurement {
    /// Sign-extended 24-bit temperature in 1/65536 degrees Celsius.
    pub temperature_raw: i32,
    /// 24-bit pressure in 1/64 pascal.
    pub pressure_raw: u32,
}

/// Little-endian value of three bytes.
pub open spec fn le24(b0: u8, b1: u8, b2: u8) -> int {
    b0 as int + 256 * b1 as int + 65536 * b2 as int
}

/// Decode the six data bytes: temperature XLSB/LSB/MSB, then pressure.
pub fn measurement_from_data(raw: &[u8; 6]) -> (measurement: Measurement)
    ensures
        measurement.temperature_raw == if le24(raw[0], raw[1], raw[2]) >= 0x80_0000 {
            le24(raw[0], raw[1], raw[2]) - 0x100_0000
        } else {
            le24(raw[0], raw[1], raw[2])
        },
        measurement.pressure_raw == le24(raw[3], raw[4], raw[5]),
{
    let temperature = (raw[0] as u32) + 256 * (raw[1] as u32) + 65536 * (raw[2] as u32);
    let temperature_raw = if temperature >= 0x80_0000 {
        temperature as i32 - 0x100_0000
    } else {
        temperature as i32
    };
    Measurement {
        temperature_raw,
        pressure_raw: (raw[3] as u32) + 256 * (raw[4] as u32) + 65536 * (raw[5] as u32),
    }
}

/// Errors the device itself can report.
#[derive(Debug, Clone, Copy, PartialEq, Eq)]
pub enum Error {
    /// `REG_CHIP_ID` did not hold a BMP5-family part number.
    InvalidChipId(u8),
    /// The reset-complete flag was not set after a software reset.
    ResetFailed,
    /// The NVM trim data was not readable, so the on-chip compensation cannot
    /// be trusted. Carries `REG_STATUS`.
    NvmNotReady(u8),
    /// `drdy_data_reg` was not set within the measurement timeout.
    MeasurementTimeout,
}

/// Accept the two chip IDs the BMP5 family reports.
pub fn check_chip_id(chip_id: u8) -> (result: Result<(), Error>)
    ensures
        result == if chip_id == 0x50 || chip_id == 0x51 {
            Ok::<(), Error>(())
        } else {
            Err(Error::InvalidChipId(chip_id))
        },
{
    if chip_id != CHIP_ID_PRIMARY && chip_id != CHIP_ID_SECONDARY {
        Err(Error::InvalidChipId(chip_id))
    } else {
        Ok(())
    }
}

/// Check `REG_INT_STATUS` after a software reset for the reset-complete flag.
pub fn check_reset(int_status: u8) -> (result: Result<(), Error>)
    ensures
        result == if int_status & 0x10 != 0 {
            Ok::<(), Error>(())
        } else {
            Err(Error::ResetFailed)
        },
{
    if int_status & INT_STATUS_POR_MASK == 0 {
        Err(Error::ResetFailed)
    } else {
        Ok(())
    }
}

/// Check that the factory trim data in NVM was loaded without error: the
/// ready flag is set and the error flag clear.
pub fn check_nvm_ready(status: u8) -> (result: Result<(), Error>)
    ensures
        result == if status & 0x02 != 0 && status & 0x04 == 0 {
            Ok::<(), Error>(())
        } else {
            Err(Error::NvmNotReady(status))
        },
{
    if status & STATUS_NVM_RDY_MASK == 0 || status & STATUS_NVM_ERR_MASK != 0 {
        Err(Error::NvmNotReady(status))
    } else {
        Ok(())
    }
}

/// Whether `REG_INT_STATUS` reports a finished measurement.
pub fn data_ready(int_status: u8) -> (ready: bool)
    ensures
        ready == (int_status & 0x01 != 0),
{
    int_status & INT_STATUS_DRDY_MASK != 0
}

} // verus!
