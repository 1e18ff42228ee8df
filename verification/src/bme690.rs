//! The Bosch BME690 environmental sensor: register encodings, the timing of
//! a forced-mode conversion, the heater and gas-control registers, the
//! decoding of the factory calibration block and of the `field_0` result
//! block, and the plan of one cycle from the settings the fusion library
//! hands back.
//!
//! Compensating the raw counts into physical units, and the heater
//! resistance target, are floating-point formulas evaluated by the caller
//! from the [`Calibration`] decoded here.

use vstd::prelude::*;

verus! {

/// Factory-default 7-bit address of the BME690 (`SDO` pulled high).
pub const DEFAULT_ADDRESS: u8 = 0x77;

/// First byte of the `field_0` measurement block (`meas_status_0`).
pub const REG_FIELD0: u8 = 0x1D;
/// Heater resistance target of profile 0; profiles 1..=9 follow.
pub const REG_RES_HEAT0: u8 = 0x5A;
/// Heater-on duration of profile 0; profiles 1..=9 follow.
pub const REG_GAS_WAIT0: u8 = 0x64;
/// Heater on/off.
pub const REG_CTRL_GAS_0: u8 = 0x70;
/// Gas conversion enable and heater profile index.
pub const REG_CTRL_GAS_1: u8 = 0x71;
/// Humidity oversampling.
pub const REG_CTRL_HUM: u8 = 0x72;
/// Temperature and pressure oversampling, and the mode.
pub const REG_CTRL_MEAS: u8 = 0x74;
/// IIR filter.
pub const REG_CONFIG: u8 = 0x75;
pub const REG_CHIP_ID: u8 = 0xD0;
pub const REG_RESET: u8 = 0xE0;

/// The calibration coefficients span three register blocks, read into one
/// array of 23 + 14 + 5 bytes.
pub const REG_COEFF1: u8 = 0x8A;
pub const COEFF1_LENGTH: usize = 23;
pub const REG_COEFF2: u8 = 0xE1;
pub const COEFF2_LENGTH: usize = 14;
pub const REG_COEFF3: u8 = 0x00;
pub const COEFF3_LENGTH: usize = 5;
pub const COEFF_TOTAL_LENGTH: usize = 42;

/// `mode` field of `REG_CTRL_MEAS`.
pub const CTRL_MEAS_MODE_MASK: u8 = 0b0000_0011;
/// `heat_off` bit of `REG_CTRL_GAS_0`.
pub const CTRL_GAS_0_HEAT_OFF_MASK: u8 = 0b0000_1000;
/// `run_gas` bit of `REG_CTRL_GAS_1`.
pub const CTRL_GAS_1_RUN_GAS_MASK: u8 = 0b0010_0000;
/// `nb_conv` field of `REG_CTRL_GAS_1`.
pub const CTRL_GAS_1_NB_CONV_MASK: u8 = 0b0000_1111;
/// `filter` field of `REG_CONFIG`.
pub const CONFIG_FILTER_MASK: u8 = 0b0001_1100;

/// Highest heater profile index with `res_heat`/`gas_wait` registers.
pub const MAX_HEATER_PROFILE: u8 = 9;
/// The heater target temperature is capped at 400 degrees Celsius.
pub const MAX_HEATER_TEMPERATURE_CELSIUS: u16 = 400;
/// Heater durations at or above this select the largest `gas_wait` code.
pub const MAX_HEATER_DURATION_MS: u16 = 0xFC0;

pub const RESET_COMMAND: u8 = 0xB6;
pub const RESET_DELAY_MS: u64 = 2;
pub const EXPECTED_CHIP_ID: u8 = 0x61;

/// Largest number of register/value pairs one burst write may carry.
pub const MAX_REGISTER_WRITES: usize = 8;
/// Size of the `field_0` result block, 0x1D through 0x2D.
pub const FIELD_LENGTH: usize = 17;

/// Duration of one ADC conversion cycle, in microseconds.
pub const MEASUREMENT_CYCLE_US: u32 = 1963;
/// Overhead of switching between the temperature, pressure and humidity
/// channels.
pub const TPH_SWITCHING_US: u32 = 1908;
/// Overhead of the gas conversion that follows them.
pub const GAS_MEASUREMENT_US: u32 = 2385;
/// Time the sensor needs to leave sleep mode.
pub const WAKE_UP_US: u32 = 1000;

/// Delay between polls while waiting for the sensor to fall asleep.
pub const MODE_POLL_INTERVAL_MS: u64 = 10;
/// Polls before a mode change is given up.
pub const MODE_POLL_ATTEMPTS: u8 = 10;
/// Delay between polls for `new_data_0`.
pub const FIELD_POLL_INTERVAL_MS: u64 = 10;
/// Polls before a measurement result is given up.
pub const FIELD_POLL_ATTEMPTS: u8 = 5;

/// Heater profile slot a fusion-library cycle is written to; forced mode
/// runs exactly one profile.
pub const HEATER_PROFILE_INDEX: u8 = 0;
/// `op_mode` value of a cycle that takes no measurement.
pub const OP_MODE_SLEEP: u8 = 0;
/// `op_mode` value of a forced-mode cycle.
pub const OP_MODE_FORCED: u8 = 1;

/// Oversampling of a humidity, temperature or pressure channel.
#[derive(Debug, Clone, Copy, PartialEq, Eq)]
pub enum Oversampling {
    /// Channel disabled.
    Skipped,
    X1,
    X2,
    X4,
    X8,
    X16,
}

/// The 3-bit `osrs` code of an oversampling setting.
pub open spec fn oversampling_code(oversampling: Oversampling) -> u8 {
    match oversampling {
        Oversampling::Skipped => 0,
        Oversampling::X1 => 1,
        Oversampling::X2 => 2,
        Oversampling::X4 => 3,
        Oversampling::X8 => 4,
        Oversampling::X16 => 5,
    }
}

/// ADC conversion cycles an oversampling setting costs.
pub open spec fn oversampling_cycles(oversampling: Oversampling) -> u32 {
    match oversampling {
        Oversampling::Skipped => 0,
        Oversampling::X1 => 1,
        Oversampling::X2 => 2,
        Oversampling::X4 => 4,
        Oversampling::X8 => 8,
        Oversampling::X16 => 16,
    }
}

/// A setting costs as many conversion cycles as it averages samples: none
/// when the channel is skipped, and `2^(code - 1)` for the `osrs` code it is
/// written to the device as, so each step up in the code doubles the cycles
/// and a measurement's duration follows from the codes alone.
pub proof fn lemma_cycles_follow_code(oversampling: Oversampling)
    ensures
        oversampling_cycles(oversampling) == if oversampling_code(oversampling) == 0 {
            0
        } else {
            vstd::arithmetic::power2::pow2((oversampling_code(oversampling) - 1) as nat)
        },
{
    vstd::arithmetic::power2::lemma2_to64();
}

/// The number of samples a setting's name announces: `X8` averages eight,
/// a skipped channel none.
pub open spec fn announced_samples(oversampling: Oversampling) -> nat {
    match oversampling {
        Oversampling::Skipped => 0,
        Oversampling::X1 => 1,
        Oversampling::X2 => 2,
        Oversampling::X4 => 4,
        Oversampling::X8 => 8,
        Oversampling::X16 => 16,
    }
}

/// The `osrs` code of a setting that samples at all is one more than the
/// base-2 logarithm of the number of samples its name announces, and zero
/// for a skipped channel.
pub proof fn lemma_code_matches_name(oversampling: Oversampling)
    ensures
        announced_samples(oversampling) == 0 <==> oversampling_code(oversampling) == 0,
        oversampling_code(oversampling) > 0 ==> vstd::arithmetic::power2::pow2(
            (oversampling_code(oversampling) - 1) as nat,
        ) == announced_samples(oversampling),
{
    vstd::arithmetic::power2::lemma2_to64();
}

impl Oversampling {
    /// The `osrs` code of this setting.
    pub fn raw(self) -> (raw: u8)
        ensures
            raw == oversampling_code(self),
            raw <= 5,
    {
        match self {
            Oversampling::Skipped => 0,
            Oversampling::X1 => 1,
            Oversampling::X2 => 2,
            Oversampling::X4 => 3,
            Oversampling::X8 => 4,
            Oversampling::X16 => 5,
        }
    }

    /// Decode an `osrs` code; `None` for the two undefined codes and anything
    /// wider than three bits.
    pub fn from_raw(raw: u8) -> (oversampling: Option<Self>)
        ensures
            match oversampling {
                Some(o) => oversampling_code(o) == raw,
                None => raw > 5,
            },
    {
        match raw {
            0 => Some(Oversampling::Skipped),
            1 => Some(Oversampling::X1),
            2 => Some(Oversampling::X2),
            3 => Some(Oversampling::X4),
            4 => Some(Oversampling::X8),
            5 => Some(Oversampling::X16),
            _ => None,
        }
    }

    /// Conversion cycles this setting costs: the multiplier, or nothing for
    /// a skipped channel.
    pub fn measurement_cycles(self) -> (cycles: u32)
        ensures
            cycles == oversampling_cycles(self),
            cycles <= 16,
    {
        match self {
            Oversampling::Skipped => 0,
            Oversampling::X1 => 1,
            Oversampling::X2 => 2,
            Oversampling::X4 => 4,
            Oversampling::X8 => 8,
            Oversampling::X16 => 16,
        }
    }
}

/// IIR filter coefficient of the temperature and pressure channels.
#[derive(Debug, Clone, Copy, PartialEq, Eq)]
pub enum IirFilterCoefficient {
    /// Filter disabled.
    Off,
    Coefficient1,
    Coefficient3,
    Coefficient7,
    Coefficient15,
    Coefficient31,
    Coefficient63,
    Coefficient127,
}

/// The 3-bit `filter` code of a coefficient.
pub open spec fn filter_code(filter: IirFilterCoefficient) -> u8 {
    match filter {
        IirFilterCoefficient::Off => 0,
        IirFilterCoefficient::Coefficient1 => 1,
        IirFilterCoefficient::Coefficient3 => 2,
        IirFilterCoefficient::Coefficient7 => 3,
        IirFilterCoefficient::Coefficient15 => 4,
        IirFilterCoefficient::Coefficient31 => 5,
        IirFilterCoefficient::Coefficient63 => 6,
        IirFilterCoefficient::Coefficient127 => 7,
    }
}

impl IirFilterCoefficient {
    /// The `filter` code of this coefficient.
    pub fn raw(self) -> (raw: u8)
        ensures
            raw == filter_code(self),
            raw <= 7,
    {
        match self {
            IirFilterCoefficient::Off => 0,
            IirFilterCoefficient::Coefficient1 => 1,
            IirFilterCoefficient::Coefficient3 => 2,
            IirFilterCoefficient::Coefficient7 => 3,
            IirFilterCoefficient::Coefficient15 => 4,
            IirFilterCoefficient::Coefficient31 => 5,
            IirFilterCoefficient::Coefficient63 => 6,
            IirFilterCoefficient::Coefficient127 => 7,
        }
    }

    /// The bits merged into `REG_CONFIG` under [`CONFIG_FILTER_MASK`].
    pub fn config_bits(self) -> (bits: u8)
        ensures
            bits == 4 * filter_code(self),
    {
        4 * self.raw()
    }
}

/// Operating mode of the `mode` field of `REG_CTRL_MEAS`.
#[derive(Debug, Clone, Copy, PartialEq, Eq)]
pub enum Mode {
    /// No measurements; the sensor returns here after a forced measurement.
    Sleep,
    /// One measurement, then back to sleep.
    Forced,
}

/// The `mode` code of a mode.
pub open spec fn mode_code(mode: Mode) -> u8 {
    match mode {
        Mode::Sleep => 0,
        Mode::Forced => 1,
    }
}

impl Mode {
    /// The `mode` code of this mode.
    pub fn raw(self) -> (raw: u8)
        ensures
            raw == mode_code(self),
    {
        match self {
            Mode::Sleep => 0,
            Mode::Forced => 1,
        }
    }
}

/// While the sensor is not asleep, the `REG_CTRL_MEAS` value that puts it to
/// sleep (the mode field cleared, the oversampling kept); `None` once the
/// value read back shows it asleep.
pub fn sleep_command(ctrl_meas: u8) -> (command: Option<u8>)
    ensures
        command == if ctrl_meas & 0x03 == 0 {
            None::<u8>
        } else {
            Some(ctrl_meas & 0xFC)
        },
{
    assert(!0x03u8 == 0xFCu8) by (bit_vector);
    if ctrl_meas & CTRL_MEAS_MODE_MASK == 0 {
        None
    } else {
        Some(ctrl_meas & !CTRL_MEAS_MODE_MASK)
    }
}

/// The `REG_CTRL_MEAS` value that selects `mode` on a sleeping sensor, or
/// `None` when the mode is sleep and nothing has to be written.
pub fn mode_command(ctrl_meas: u8, mode: Mode) -> (command: Option<u8>)
    ensures
        command == match mode {
            Mode::Sleep => None::<u8>,
            Mode::Forced => Some(((ctrl_meas & 0xFC) | 1) as u8),
        },
{
    assert(!0x03u8 == 0xFCu8) by (bit_vector);
    match mode {
        Mode::Sleep => None,
        Mode::Forced => Some((ctrl_meas & !CTRL_MEAS_MODE_MASK) | Mode::Forced.raw()),
    }
}

/// Oversampling and IIR filter settings of every measurement.
#[derive(Debug, Clone, Copy, PartialEq, Eq)]
pub struct Configuration {
    pub humidity_oversampling: Oversampling,
    pub temperature_oversampling: Oversampling,
    pub pressure_oversampling: Oversampling,
    pub iir_filter: IirFilterCoefficient,
}

/// Duration of one forced-mode conversion, heater time excluded.
pub open spec fn conversion_duration(configuration: Configuration) -> int {
    (oversampling_cycles(configuration.temperature_oversampling) + oversampling_cycles(
        configuration.pressure_oversampling,
    ) + oversampling_cycles(configuration.humidity_oversampling)) * 1963 + 1908 + 2385 + 1000
}

impl Configuration {
    /// How long one forced-mode T/P/H + gas conversion takes, in
    /// microseconds, without the heater-on time: one cycle per oversampled
    /// sample over the three channels, plus the switching, gas-conversion
    /// and wake-up overheads.
    pub fn measurement_duration_us(&self) -> (us: u32)
        ensures
            us as int == conversion_duration(*self),
    {
        let cycles = self.temperature_oversampling.measurement_cycles()
            + self.pressure_oversampling.measurement_cycles()
            + self.humidity_oversampling.measurement_cycles();
        cycles * MEASUREMENT_CYCLE_US + TPH_SWITCHING_US + GAS_MEASUREMENT_US + WAKE_UP_US
    }

    /// The humidity oversampling written to `REG_CTRL_HUM`.
    pub fn ctrl_hum(&self) -> (value: u8)
        ensures
            value == oversampling_code(self.humidity_oversampling),
    {
        self.humidity_oversampling.raw()
    }

    /// The oversampling bits merged into `REG_CTRL_MEAS` around its mode
    /// field: temperature in bits 7:5, pressure in bits 4:2.
    pub fn ctrl_meas_oversampling(&self) -> (value: u8)
        ensures
            value as int == 32 * oversampling_code(self.temperature_oversampling) as int + 4
                * oversampling_code(self.pressure_oversampling) as int,
    {
        32 * self.temperature_oversampling.raw() + 4 * self.pressure_oversampling.raw()
    }
}

/// How long to wait after triggering a forced measurement: the conversion
/// time plus the heater-on time.
pub fn forced_wait_us(configuration: &Configuration, heater_duration_ms: u16) -> (us: u32)
    ensures
        us as int == conversion_duration(*configuration) + 1000 * heater_duration_ms as int,
{
    configuration.measurement_duration_us() + heater_duration_ms as u32 * 1000
}

/// Two's-complement value of a byte.
pub open spec fn s8(byte: u8) -> int {
    if byte >= 128 {
        byte as int - 256
    } else {
        byte as int
    }
}

/// Unsigned little-endian value of two bytes.
pub open spec fn le_u16(lsb: u8, msb: u8) -> int {
    lsb as int + 256 * msb as int
}

/// Signed little-endian value of two bytes.
pub open spec fn le_i16(lsb: u8, msb: u8) -> int {
    if msb >= 128 {
        le_u16(lsb, msb) - 65536
    } else {
        le_u16(lsb, msb)
    }
}

/// Two's-complement value of a 12-bit field held in a wider integer.
pub open spec fn s12(value: int) -> int {
    if value > 2047 {
        value - 4096
    } else {
        value
    }
}

fn byte_as_i8(byte: u8) -> (value: i8)
    ensures
        value == s8(byte),
{
    if byte >= 128 {
        (byte as i16 - 256) as i8
    } else {
        byte as i8
    }
}

fn bytes_as_u16(lsb: u8, msb: u8) -> (value: u16)
    ensures
        value == le_u16(lsb, msb),
{
    lsb as u16 + 256 * (msb as u16)
}

fn bytes_as_i16(lsb: u8, msb: u8) -> (value: i16)
    ensures
        value == le_i16(lsb, msb),
{
    let unsigned = lsb as i32 + 256 * (msb as i32);
    if msb >= 128 {
        (unsigned - 65536) as i16
    } else {
        unsigned as i16
    }
}

/// Sign-extend a 12-bit two's-complement coefficient held in an `i16`.
pub fn sign_extend_12bit(value: i16) -> (extended: i16)
    ensures
        extended == s12(value as int),
{
    if value > 2047 {
        value - 4096
    } else {
        value
    }
}

/// Per-chip factory trimming values, as the coefficient block holds them.
#[derive(Debug, Clone, Copy, PartialEq, Eq)]
pub struct Calibration {
    pub par_t1: u16,
    pub par_t2: u16,
    pub par_t3: i8,
    pub par_p1: u16,
    pub par_p2: u16,
    pub par_p3: i8,
    pub par_p4: i8,
    pub par_p5: i16,
    pub par_p6: i16,
    pub par_p7: i8,
    pub par_p8: i8,
    pub par_p9: i16,
    pub par_p10: i8,
    pub par_p11: i8,
    pub par_h1: i16,
    pub par_h2: i8,
    pub par_h3: u8,
    pub par_h4: i8,
    pub par_h5: i16,
    pub par_h6: u8,
    pub par_g1: i8,
    pub par_g2: i16,
    pub par_g3: i8,
    pub res_heat_range: u8,
    pub res_heat_val: i8,
}

impl Calibration {
    /// Decode the 42-byte coefficient block.
    ///
    /// `par_h1` and `par_h5` are 12-bit values sharing byte 24: `par_h5`
    /// takes its high nibble below byte 23, `par_h1` its low nibble below
    /// byte 25.
    pub fn from_bytes(raw: &[u8; 42]) -> (calibration: Self)
        ensures
            calibration.par_t1 == le_u16(raw[31], raw[32]),
            calibration.par_t2 == le_u16(raw[0], raw[1]),
            calibration.par_t3 == s8(raw[2]),
            calibration.par_p1 == le_u16(raw[10], raw[11]),
            calibration.par_p2 == le_u16(raw[12], raw[13]),
            calibration.par_p3 == s8(raw[14]),
            calibration.par_p4 == s8(raw[15]),
            calibration.par_p5 == le_i16(raw[4], raw[5]),
            calibration.par_p6 == le_i16(raw[6], raw[7]),
            calibration.par_p7 == s8(raw[8]),
            calibration.par_p8 == s8(raw[9]),
            calibration.par_p9 == le_i16(raw[18], raw[19]),
            calibration.par_p10 == s8(raw[20]),
            calibration.par_p11 == s8(raw[21]),
            calibration.par_h1 == s12(16 * raw[25] as int + raw[24] as int % 16),
            calibration.par_h2 == s8(raw[26]),
            calibration.par_h3 == raw[28],
            calibration.par_h4 == s8(raw[27]),
            calibration.par_h5 == s12(16 * raw[23] as int + raw[24] as int / 16),
            calibration.par_h6 == raw[29],
            calibration.par_g1 == s8(raw[35]),
            calibration.par_g2 == le_i16(raw[33], raw[34]),
            calibration.par_g3 == s8(raw[36]),
            calibration.res_heat_range as int == (raw[39] as int / 16) % 4,
            calibration.res_heat_val == s8(raw[37]),
    {
        let par_h5 = sign_extend_12bit(16 * (raw[23] as i16) + (raw[24] / 16) as i16);
        let par_h1 = sign_extend_12bit(16 * (raw[25] as i16) + (raw[24] % 16) as i16);
        Calibration {
            par_t1: bytes_as_u16(raw[31], raw[32]),
            par_t2: bytes_as_u16(raw[0], raw[1]),
            par_t3: byte_as_i8(raw[2]),
            par_p1: bytes_as_u16(raw[10], raw[11]),
            par_p2: bytes_as_u16(raw[12], raw[13]),
            par_p3: byte_as_i8(raw[14]),
            par_p4: byte_as_i8(raw[15]),
            par_p5: bytes_as_i16(raw[4], raw[5]),
            par_p6: bytes_as_i16(raw[6], raw[7]),
            par_p7: byte_as_i8(raw[8]),
            par_p8: byte_as_i8(raw[9]),
            par_p9: bytes_as_i16(raw[18], raw[19]),
            par_p10: byte_as_i8(raw[20]),
            par_p11: byte_as_i8(raw[21]),
            par_h1,
            par_h2: byte_as_i8(raw[26]),
            par_h3: raw[28],
            par_h4: byte_as_i8(raw[27]),
            par_h5,
            par_h6: raw[29],
            par_g1: byte_as_i8(raw[35]),
            par_g2: bytes_as_i16(raw[33], raw[34]),
            par_g3: byte_as_i8(raw[36]),
            res_heat_range: (raw[39] / 16) % 4,
            res_heat_val: byte_as_i8(raw[37]),
        }
    }
}

/// One entry of the heater profile table (`res_heat_x` / `gas_wait_x`).
#[derive(Debug, Clone, Copy, PartialEq, Eq)]
pub struct HeaterProfile {
    /// Profile slot, 0..=9.
    pub index: u8,
    /// Heater target temperature in degrees Celsius, capped at 400.
    pub target_temperature_celsius: u16,
    /// How long the heater stays on before the gas ADC is sampled, in
    /// milliseconds.
    pub duration_ms: u16,
}

/// Gas-sensor and heater enables, over `REG_CTRL_GAS_0` and `REG_CTRL_GAS_1`.
#[derive(Debug, Clone, Copy, PartialEq, Eq)]
pub struct GasConfig {
    /// Drives `heat_off` inverted: `true` powers the heater.
    pub heater_enabled: bool,
    /// `run_gas`: append a gas conversion to each measurement.
    pub gas_measurement_enabled: bool,
    /// `nb_conv`: which heater profile forced mode runs.
    pub heater_profile: u8,
}

/// Errors the device or a request can produce.
#[derive(Debug, Clone, Copy, PartialEq, Eq)]
pub enum Error {
    InvalidChipId(u8),
    /// More register writes than one burst may carry.
    WriteTooLong,
    /// A heater profile index above 9 was requested.
    InvalidHeaterProfile(u8),
    /// An `osrs` code outside the six defined ones was requested.
    InvalidOversampling(u8),
    /// An operating mode other than sleep and forced was requested.
    UnsupportedOperatingMode(u8),
    /// The sensor did not return to sleep mode.
    ModeChangeTimeout,
    /// `new_data_0` was still clear after the final poll.
    NoNewData,
}

/// Accept only the BME690 chip ID.
pub fn check_chip_id(chip_id: u8) -> (result: Result<(), Error>)
    ensures
        result == if chip_id == 0x61 {
            Ok::<(), Error>(())
        } else {
            Err(Error::InvalidChipId(chip_id))
        },
{
    if chip_id != EXPECTED_CHIP_ID {
        Err(Error::InvalidChipId(chip_id))
    } else {
        Ok(())
    }
}

/// The bytes of one burst write. The register pointer does not
/// auto-increment on writes, so every data byte is preceded by its register:
/// `addr0, data0, addr1, data1, ...`.
pub fn write_frame(pairs: &[(u8, u8)]) -> (frame: Result<Vec<u8>, Error>)
    ensures
        pairs.len() > 8 <==> frame == Err::<Vec<u8>, Error>(Error::WriteTooLong),
        frame matches Ok(bytes) ==> bytes@.len() == 2 * pairs.len() && forall|i: int|
            0 <= i < pairs.len() ==> bytes@[2 * i] == (#[trigger] pairs@[i]).0 && bytes@[2 * i
                + 1] == pairs@[i].1,
{
    if pairs.len() > MAX_REGISTER_WRITES {
        return Err(Error::WriteTooLong);
    }
    let mut bytes: Vec<u8> = Vec::new();
    for i in 0..pairs.len()
        invariant
            bytes@.len() == 2 * i,
            forall|j: int|
                0 <= j < i ==> bytes@[2 * j] == (#[trigger] pairs@[j]).0 && bytes@[2 * j + 1]
                    == pairs@[j].1,
    {
        bytes.push(pairs[i].0);
        bytes.push(pairs[i].1);
    }
    Ok(bytes)
}

/// `gas_wait` encoding of a duration: the count is divided by four, and the
/// multiplier exponent raised, until it fits into six bits.
pub open spec fn gas_wait_encoding(duration: nat, multiplier: nat) -> nat
    decreases duration,
{
    if duration > 63 {
        gas_wait_encoding(duration / 4, multiplier + 1)
    } else {
        duration + 64 * multiplier
    }
}

/// Encode a heater-on time into a `gas_wait_x` value: a 6-bit count in bits
/// 5:0 and a multiplier exponent in bits 7:6. Durations of 4032 ms and more
/// all map to the largest encoding.
pub fn gas_wait_register(duration_ms: u16) -> (value: u8)
    ensures
        value as nat == if duration_ms >= 0xFC0 {
            255
        } else {
            gas_wait_encoding(duration_ms as nat, 0)
        },
{
    if duration_ms >= MAX_HEATER_DURATION_MS {
        return 0xFF;
    }
    let mut duration = duration_ms;
    let mut multiplier: u8 = 0;
    while duration > 63
        invariant
            multiplier <= 3,
            multiplier == 0 ==> duration < 4032,
            multiplier == 1 ==> duration < 1008,
            multiplier == 2 ==> duration < 252,
            multiplier == 3 ==> duration <= 63,
            gas_wait_encoding(duration as nat, multiplier as nat) == gas_wait_encoding(
                duration_ms as nat,
                0,
            ),
        decreases duration,
    {
        duration = duration / 4;
        multiplier = multiplier + 1;
    }
    duration as u8 + 64 * multiplier
}

/// The two register writes that program heater profile `profile`, given the
/// heater resistance code computed for its target: `res_heat_<index>` and
/// `gas_wait_<index>`.
pub fn heater_profile_writes(profile: &HeaterProfile, resistance: u8) -> (writes: Result<
    [(u8, u8); 2],
    Error,
>)
    ensures
        profile.index > 9 <==> writes == Err::<[(u8, u8); 2], Error>(
            Error::InvalidHeaterProfile(profile.index),
        ),
        writes matches Ok(w) ==> w[0].0 == 0x5A + profile.index && w[0].1 == resistance && w[1].0 == 0x64
            + profile.index && w[1].1 as nat == if profile.duration_ms >= 0xFC0 {
            255
        } else {
            gas_wait_encoding(profile.duration_ms as nat, 0)
        },
{
    if profile.index > MAX_HEATER_PROFILE {
        return Err(Error::InvalidHeaterProfile(profile.index));
    }
    Ok(
        [
            (REG_RES_HEAT0 + profile.index, resistance),
            (REG_GAS_WAIT0 + profile.index, gas_wait_register(profile.duration_ms)),
        ],
    )
}

/// The new `REG_CTRL_GAS_0` and `REG_CTRL_GAS_1` values for `config`, given
/// their current contents: `heat_off`, `run_gas` and `nb_conv` are replaced,
/// every other bit is kept.
pub fn gas_control_registers(config: &GasConfig, ctrl_gas_0: u8, ctrl_gas_1: u8) -> (values:
    Result<(u8, u8), Error>)
    ensures
        config.heater_profile > 9 <==> values == Err::<(u8, u8), Error>(
            Error::InvalidHeaterProfile(config.heater_profile),
        ),
        values matches Ok(v) ==> v.0 == ((ctrl_gas_0 & 0xF7) | if config.heater_enabled {
            0u8
        } else {
            0x08u8
        }) && v.1 == ((ctrl_gas_1 & 0xD0) | (if config.gas_measurement_enabled {
            0x20u8
        } else {
            0u8
        }) | config.heater_profile),
{
    if config.heater_profile > MAX_HEATER_PROFILE {
        return Err(Error::InvalidHeaterProfile(config.heater_profile));
    }
    assert(!0x08u8 == 0xF7u8) by (bit_vector);
    assert(!(0x20u8 | 0x0Fu8) == 0xD0u8) by (bit_vector);
    let heat_off: u8 = if config.heater_enabled {
        0
    } else {
        CTRL_GAS_0_HEAT_OFF_MASK
    };
    let run_gas: u8 = if config.gas_measurement_enabled {
        CTRL_GAS_1_RUN_GAS_MASK
    } else {
        0
    };
    let value0 = (ctrl_gas_0 & !CTRL_GAS_0_HEAT_OFF_MASK) | heat_off;
    let profile = config.heater_profile;
    assert(profile & 0x0F == profile) by (bit_vector)
        requires
            profile <= 9,
    ;
    let value1 = (ctrl_gas_1 & !(CTRL_GAS_1_RUN_GAS_MASK | CTRL_GAS_1_NB_CONV_MASK)) | run_gas | (
    profile & CTRL_GAS_1_NB_CONV_MASK);
    Ok((value0, value1))
}

/// One uncompensated measurement, as the ADCs reported it.
#[derive(Debug, Clone, Copy, PartialEq, Eq)]
pub struct Measurement {
    /// 24-bit pressure ADC output.
    pub pressure_raw: u32,
    /// 24-bit temperature ADC output.
    pub temperature_raw: u32,
    /// 16-bit humidity ADC output.
    pub relative_humidity_raw: u16,
    /// 10-bit gas resistance ADC output.
    pub gas_resistance_raw: u16,
    /// The switched range the gas ADC used.
    pub gas_range: u8,
    /// The gas conversion ran and produced a result.
    pub gas_measurement_valid: bool,
    /// The heater reached its target temperature in time.
    pub heater_stable: bool,
    /// The heater profile this result came from.
    pub gas_measurement_index: u8,
    /// Increments with every measurement.
    pub measurement_index: u8,
}

/// Big-endian value of three bytes.
pub open spec fn be24(b0: u8, b1: u8, b2: u8) -> int {
    65536 * b0 as int + 256 * b1 as int + b2 as int
}

/// Decode the `field_0` block; `None` while `new_data_0` is clear.
pub fn measurement_from_field(raw: &[u8; 17]) -> (measurement: Option<Measurement>)
    ensures
        (raw[0] & 0x80 == 0) <==> measurement is None,
        measurement matches Some(m) ==> {
            &&& m.pressure_raw == be24(raw[2], raw[3], raw[4])
            &&& m.temperature_raw == be24(raw[5], raw[6], raw[7])
            &&& m.relative_humidity_raw == 256 * raw[8] as int + raw[9] as int
            &&& m.gas_resistance_raw == 4 * raw[15] as int + raw[16] as int / 64
            &&& m.gas_range == raw[16] & 0x0F
            &&& m.gas_measurement_valid == (raw[16] & 0x20 != 0)
            &&& m.heater_stable == (raw[16] & 0x10 != 0)
            &&& m.gas_measurement_index == raw[0] & 0x0F
            &&& m.measurement_index == raw[1]
        },
{
    if raw[0] & 0x80 == 0 {
        return None;
    }
    Some(
        Measurement {
            pressure_raw: 65536 * (raw[2] as u32) + 256 * (raw[3] as u32) + raw[4] as u32,
            temperature_raw: 65536 * (raw[5] as u32) + 256 * (raw[6] as u32) + raw[7] as u32,
            relative_humidity_raw: 256 * (raw[8] as u16) + raw[9] as u16,
            gas_resistance_raw: 4 * (raw[15] as u16) + (raw[16] / 64) as u16,
            gas_range: raw[16] & 0x0F,
            gas_measurement_valid: raw[16] & 0x20 != 0,
            heater_stable: raw[16] & 0x10 != 0,
            gas_measurement_index: raw[0] & 0x0F,
            measurement_index: raw[1],
        },
    )
}

/// The sensor settings the fusion library asks for in one cycle.
#[derive(Debug, Clone, Copy, PartialEq, Eq)]
pub struct BmeSettings {
    /// Operating mode: sleep, forced, or a mode this driver does not run.
    pub op_mode: u8,
    /// `osrs` codes of the three channels.
    pub humidity_oversampling: u8,
    pub temperature_oversampling: u8,
    pub pressure_oversampling: u8,
    /// Nonzero to run the heater and the gas conversion.
    pub run_gas: u8,
    /// Heater target in degrees Celsius.
    pub heater_temperature: u16,
    /// Heater-on time in milliseconds.
    pub heater_duration: u16,
    /// Nonzero to take a measurement this cycle.
    pub trigger_measurement: u8,
}

/// What one forced-mode cycle writes and whether it measures.
#[derive(Debug, Clone, Copy, PartialEq, Eq)]
pub struct MeasurePlan {
    /// Oversampling to program; the filter stays off.
    pub configuration: Configuration,
    /// The heater profile to program.
    pub heater: HeaterProfile,
    /// The heater and gas enables to program.
    pub gas: GasConfig,
    /// Whether a measurement is taken after programming.
    pub trigger: bool,
    /// Heater-on time to wait for: the profile's, or nothing without gas.
    pub heater_duration_ms: u16,
}

/// The two kinds of cycle.
#[derive(Debug, Clone, Copy, PartialEq, Eq)]
pub enum CyclePlan {
    /// Put the sensor to sleep and measure nothing.
    Sleep,
    /// Program the sensor and possibly measure.
    Forced(MeasurePlan),
}

/// Decode an `osrs` code the library asked for, or refuse it.
fn requested_oversampling(code: u8) -> (oversampling: Result<Oversampling, Error>)
    ensures
        match oversampling {
            Ok(o) => code <= 5 && oversampling_code(o) == code,
            Err(e) => code > 5 && e == Error::InvalidOversampling(code),
        },
{
    match Oversampling::from_raw(code) {
        Some(o) => Ok(o),
        None => Err(Error::InvalidOversampling(code)),
    }
}

/// Plan one cycle from the settings the fusion library returned.
///
/// Sleep asks for nothing but sleep; any mode other than sleep and forced is
/// refused, and so is an undefined oversampling code (humidity checked
/// first, then temperature, then pressure). A forced cycle programs the
/// oversampling, heater profile 0 with the requested target and duration,
/// and the heater and gas conversion both on exactly when `run_gas` is
/// nonzero.
pub fn plan_cycle(settings: &BmeSettings) -> (plan: Result<CyclePlan, Error>)
    ensures
        settings.op_mode == 0 ==> plan == Ok::<CyclePlan, Error>(CyclePlan::Sleep),
        settings.op_mode != 0 && settings.op_mode != 1 ==> plan == Err::<CyclePlan, Error>(
            Error::UnsupportedOperatingMode(settings.op_mode),
        ),
        settings.op_mode == 1 ==> {
            if settings.humidity_oversampling > 5 {
                plan == Err::<CyclePlan, Error>(
                    Error::InvalidOversampling(settings.humidity_oversampling),
                )
            } else if settings.temperature_oversampling > 5 {
                plan == Err::<CyclePlan, Error>(
                    Error::InvalidOversampling(settings.temperature_oversampling),
                )
            } else if settings.pressure_oversampling > 5 {
                plan == Err::<CyclePlan, Error>(
                    Error::InvalidOversampling(settings.pressure_oversampling),
                )
            } else {
                plan matches Ok(CyclePlan::Forced(p)) && {
                    &&& oversampling_code(p.configuration.humidity_oversampling)
                        == settings.humidity_oversampling
                    &&& oversampling_code(p.configuration.temperature_oversampling)
                        == settings.temperature_oversampling
                    &&& oversampling_code(p.configuration.pressure_oversampling)
                        == settings.pressure_oversampling
                    &&& p.configuration.iir_filter == IirFilterCoefficient::Off
                    &&& p.heater == HeaterProfile {
                        index: 0,
                        target_temperature_celsius: settings.heater_temperature,
                        duration_ms: settings.heater_duration,
                    }
                    &&& p.gas == GasConfig {
                        heater_enabled: settings.run_gas != 0,
                        gas_measurement_enabled: settings.run_gas != 0,
                        heater_profile: 0,
                    }
                    &&& p.trigger == (settings.trigger_measurement != 0)
                    &&& p.heater_duration_ms == if settings.run_gas != 0 {
                        settings.heater_duration
                    } else {
                        0
                    }
                }
            }
        },
{
    if settings.op_mode == OP_MODE_SLEEP {
        return Ok(CyclePlan::Sleep);
    }
    if settings.op_mode != OP_MODE_FORCED {
        return Err(Error::UnsupportedOperatingMode(settings.op_mode));
    }
    let humidity = match requested_oversampling(settings.humidity_oversampling) {
        Ok(o) => o,
        Err(e) => return Err(e),
    };
    let temperature = match requested_oversampling(settings.temperature_oversampling) {
        Ok(o) => o,
        Err(e) => return Err(e),
    };
    let pressure = match requested_oversampling(settings.pressure_oversampling) {
        Ok(o) => o,
        Err(e) => return Err(e),
    };
    let run_gas = settings.run_gas != 0;
    Ok(
        CyclePlan::Forced(
            MeasurePlan {
                configuration: Configuration {
                    humidity_oversampling: humidity,
                    temperature_oversampling: temperature,
                    pressure_oversampling: pressure,
                    iir_filter: IirFilterCoefficient::Off,
                },
                heater: HeaterProfile {
                    index: HEATER_PROFILE_INDEX,
                    target_temperature_celsius: settings.heater_temperature,
                    duration_ms: settings.heater_duration,
                },
                gas: GasConfig {
                    heater_enabled: run_gas,
                    gas_measurement_enabled: run_gas,
                    heater_profile: HEATER_PROFILE_INDEX,
                },
                trigger: settings.trigger_measurement != 0,
                heater_duration_ms: if run_gas {
                    settings.heater_duration
                } else {
                    0
                },
            },
        ),
    )
}

} // verus!
