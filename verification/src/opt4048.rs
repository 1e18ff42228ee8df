//! The Texas Instruments OPT4048 tristimulus XYZ colour sensor: register
//! encodings and the decoding of its result registers.
//!
//! Each of the four channels is reported as a 20-bit mantissa plus a 4-bit
//! exponent, where the linear ADC code is `mantissa << exponent`, together
//! with a 4-bit sample counter and a 4-bit CRC. Every register is 16 bits
//! wide and big-endian.

use vstd::prelude::*;

verus! {

/// 7-bit address used when `ADDR` is tied to GND. This is the factory default.
pub const DEFAULT_ADDRESS: u8 = 0x44;
/// 7-bit address used when `ADDR` is tied to VDD.
pub const ADDRESS_VDD: u8 = 0x45;
/// 7-bit address used when `ADDR` is tied to SDA.
pub const ADDRESS_SDA: u8 = 0x46;
/// 7-bit address used when `ADDR` is tied to SCL.
pub const ADDRESS_SCL: u8 = 0x47;

pub const REG_CH0_EXPONENT_RESULT_MSB: u8 = 0x00;
pub const REG_THRESHOLD_LOW: u8 = 0x08;
pub const REG_THRESHOLD_HIGH: u8 = 0x09;
pub const REG_CONTROL: u8 = 0x0A;
pub const REG_INT_CONTROL: u8 = 0x0B;
pub const REG_FLAGS: u8 = 0x0C;
pub const REG_DEVICE_ID: u8 = 0x11;

/// Value `REG_DEVICE_ID` holds on an OPT4048.
pub const EXPECTED_DEVICE_ID: u16 = 0x0821;

pub const CONTROL_OPERATING_MODE_MASK: u16 = 0b0000_0000_0011_0000;
pub const INT_CONTROL_THRESHOLD_CH_SEL_MASK: u16 = 0b0000_0000_0110_0000;

/// Number of channels one measurement produces.
pub const CHANNEL_COUNT: usize = 4;
/// Bytes the four channels occupy in the contiguous result register block.
pub const RESULT_BLOCK_LEN: usize = 16;
/// Time between two `CONVERSION_READY` polls while a measurement is running.
pub const DATA_READY_POLL_INTERVAL_MS: u64 = 5;
/// Longest time a read waits for `CONVERSION_READY`.
pub const DATA_READY_TIMEOUT_MS: u64 = 4000;
/// Settling time after a general-call reset before the device responds again.
pub const RESET_DELAY_MS: u64 = 2;

/// Full-scale light level (`RANGE` field of `REG_CONTROL`).
#[derive(Debug, Clone, Copy, PartialEq, Eq)]
pub enum Range {
    Lux2_2k,
    Lux4_5k,
    Lux9k,
    Lux18k,
    Lux36k,
    Lux72k,
    Lux144k,
    /// Automatic full-scale range selection; the power-on default.
    Auto,
}

/// Register encoding of a range.
pub open spec fn range_code(range: Range) -> u8 {
    match range {
        Range::Lux2_2k => 0,
        Range::Lux4_5k => 1,
        Range::Lux9k => 2,
        Range::Lux18k => 3,
        Range::Lux36k => 4,
        Range::Lux72k => 5,
        Range::Lux144k => 6,
        Range::Auto => 12,
    }
}

impl Range {
    /// Register encoding of this setting.
    pub fn raw(self) -> (raw: u8)
        ensures
            raw == range_code(self),
    {
        match self {
            Range::Lux2_2k => 0,
            Range::Lux4_5k => 1,
            Range::Lux9k => 2,
            Range::Lux18k => 3,
            Range::Lux36k => 4,
            Range::Lux72k => 5,
            Range::Lux144k => 6,
            Range::Auto => 12,
        }
    }

    /// Decode the raw `RANGE` field; `None` for the undefined encodings.
    pub fn from_raw(raw: u8) -> (range: Option<Self>)
        ensures
            match range {
                Some(r) => range_code(r) == raw,
                None => forall|r: Range| range_code(r) != raw,
            },
    {
        match raw {
            0 => Some(Range::Lux2_2k),
            1 => Some(Range::Lux4_5k),
            2 => Some(Range::Lux9k),
            3 => Some(Range::Lux18k),
            4 => Some(Range::Lux36k),
            5 => Some(Range::Lux72k),
            6 => Some(Range::Lux144k),
            12 => Some(Range::Auto),
            _ => None,
        }
    }

    /// Nominal full-scale illuminance in lux, or `None` for [`Range::Auto`].
    pub fn full_scale_lux(self) -> (lux: Option<u32>)
        ensures
            lux == match self {
                Range::Lux2_2k => Some(2_200u32),
                Range::Lux4_5k => Some(4_500u32),
                Range::Lux9k => Some(9_000u32),
                Range::Lux18k => Some(18_000u32),
                Range::Lux36k => Some(36_000u32),
                Range::Lux72k => Some(72_000u32),
                Range::Lux144k => Some(144_000u32),
                Range::Auto => None,
            },
    {
        match self {
            Range::Lux2_2k => Some(2_200),
            Range::Lux4_5k => Some(4_500),
            Range::Lux9k => Some(9_000),
            Range::Lux18k => Some(18_000),
            Range::Lux36k => Some(36_000),
            Range::Lux72k => Some(72_000),
            Range::Lux144k => Some(144_000),
            Range::Auto => None,
        }
    }
}

/// Per-channel conversion time (`CONVERSION_TIME` field of `REG_CONTROL`).
#[derive(Debug, Clone, Copy, PartialEq, Eq)]
pub enum ConversionTime {
    Us600,
    Ms1,
    Ms1_8,
    Ms3_4,
    Ms6_5,
    Ms12_7,
    Ms25,
    Ms50,
    /// Power-on default.
    Ms100,
    Ms200,
    Ms400,
    Ms800,
}

/// Register encoding of a conversion time.
pub open spec fn conversion_time_code(time: ConversionTime) -> u8 {
    match time {
        ConversionTime::Us600 => 0,
        ConversionTime::Ms1 => 1,
        ConversionTime::Ms1_8 => 2,
        ConversionTime::Ms3_4 => 3,
        ConversionTime::Ms6_5 => 4,
        ConversionTime::Ms12_7 => 5,
        ConversionTime::Ms25 => 6,
        ConversionTime::Ms50 => 7,
        ConversionTime::Ms100 => 8,
        ConversionTime::Ms200 => 9,
        ConversionTime::Ms400 => 10,
        ConversionTime::Ms800 => 11,
    }
}

/// Duration of one single-channel conversion, in microseconds.
pub open spec fn conversion_time_us(time: ConversionTime) -> u32 {
    match time {
        ConversionTime::Us600 => 600,
        ConversionTime::Ms1 => 1_000,
        ConversionTime::Ms1_8 => 1_800,
        ConversionTime::Ms3_4 => 3_400,
        ConversionTime::Ms6_5 => 6_500,
        ConversionTime::Ms12_7 => 12_700,
        ConversionTime::Ms25 => 25_000,
        ConversionTime::Ms50 => 50_000,
        ConversionTime::Ms100 => 100_000,
        ConversionTime::Ms200 => 200_000,
        ConversionTime::Ms400 => 400_000,
        ConversionTime::Ms800 => 800_000,
    }
}

impl ConversionTime {
    /// Register encoding of this setting.
    pub fn raw(self) -> (raw: u8)
        ensures
            raw == conversion_time_code(self),
    {
        match self {
            ConversionTime::Us600 => 0,
            ConversionTime::Ms1 => 1,
            ConversionTime::Ms1_8 => 2,
            ConversionTime::Ms3_4 => 3,
            ConversionTime::Ms6_5 => 4,
            ConversionTime::Ms12_7 => 5,
            ConversionTime::Ms25 => 6,
            ConversionTime::Ms50 => 7,
            ConversionTime::Ms100 => 8,
            ConversionTime::Ms200 => 9,
            ConversionTime::Ms400 => 10,
            ConversionTime::Ms800 => 11,
        }
    }

    /// Decode the raw `CONVERSION_TIME` field; `None` for 12 and above.
    pub fn from_raw(raw: u8) -> (time: Option<Self>)
        ensures
            match time {
                Some(t) => conversion_time_code(t) == raw,
                None => raw >= 12,
            },
    {
        match raw {
            0 => Some(ConversionTime::Us600),
            1 => Some(ConversionTime::Ms1),
            2 => Some(ConversionTime::Ms1_8),
            3 => Some(ConversionTime::Ms3_4),
            4 => Some(ConversionTime::Ms6_5),
            5 => Some(ConversionTime::Ms12_7),
            6 => Some(ConversionTime::Ms25),
            7 => Some(ConversionTime::Ms50),
            8 => Some(ConversionTime::Ms100),
            9 => Some(ConversionTime::Ms200),
            10 => Some(ConversionTime::Ms400),
            11 => Some(ConversionTime::Ms800),
            _ => None,
        }
    }

    /// Time one single-channel conversion takes, in microseconds.
    pub fn microseconds(self) -> (us: u32)
        ensures
            us == conversion_time_us(self),
    {
        match self {
            ConversionTime::Us600 => 600,
            ConversionTime::Ms1 => 1_000,
            ConversionTime::Ms1_8 => 1_800,
            ConversionTime::Ms3_4 => 3_400,
            ConversionTime::Ms6_5 => 6_500,
            ConversionTime::Ms12_7 => 12_700,
            ConversionTime::Ms25 => 25_000,
            ConversionTime::Ms50 => 50_000,
            ConversionTime::Ms100 => 100_000,
            ConversionTime::Ms200 => 200_000,
            ConversionTime::Ms400 => 400_000,
            ConversionTime::Ms800 => 800_000,
        }
    }
}

/// Device operating mode (`OPERATING_MODE` field of `REG_CONTROL`).
#[derive(Debug, Clone, Copy, PartialEq, Eq)]
pub enum OperatingMode {
    /// Idle; the power-on default.
    PowerDown,
    /// One measurement, forced to run through the auto-range logic first.
    ForcedAutoRangeOneShot,
    /// One measurement of all four channels, then back to power-down.
    OneShot,
    /// Measure continuously.
    Continuous,
}

/// Register encoding of an operating mode.
pub open spec fn mode_code(mode: OperatingMode) -> u8 {
    match mode {
        OperatingMode::PowerDown => 0,
        OperatingMode::ForcedAutoRangeOneShot => 1,
        OperatingMode::OneShot => 2,
        OperatingMode::Continuous => 3,
    }
}

impl OperatingMode {
    /// Register encoding of this setting.
    pub fn raw(self) -> (raw: u8)
        ensures
            raw == mode_code(self),
    {
        match self {
            OperatingMode::PowerDown => 0,
            OperatingMode::ForcedAutoRangeOneShot => 1,
            OperatingMode::OneShot => 2,
            OperatingMode::Continuous => 3,
        }
    }

    /// Decode the raw `OPERATING_MODE` field; only its two bits are looked at.
    pub fn from_raw(raw: u8) -> (mode: Self)
        ensures
            mode_code(mode) == raw % 4,
    {
        match raw % 4 {
            0 => OperatingMode::PowerDown,
            1 => OperatingMode::ForcedAutoRangeOneShot,
            2 => OperatingMode::OneShot,
            _ => OperatingMode::Continuous,
        }
    }

    /// The mode `REG_CONTROL` currently selects (bits 5:4).
    pub fn from_control(control: u16) -> (mode: Self)
        ensures
            mode_code(mode) == (control / 16) % 4,
    {
        OperatingMode::from_raw(((control / 16) % 4) as u8)
    }
}

/// One of the four channels a measurement produces, in read-out order.
#[derive(Debug, Clone, Copy, PartialEq, Eq)]
pub enum Channel {
    /// Channel 0, approximating the CIE 1931 X colour matching function.
    X,
    /// Channel 1, approximating the CIE 1931 Y colour matching function.
    Y,
    /// Channel 2, approximating the CIE 1931 Z colour matching function.
    Z,
    /// Channel 3, an unfiltered wide-band channel.
    Wideband,
}

/// Position of a channel in the result block.
pub open spec fn channel_index(channel: Channel) -> int {
    match channel {
        Channel::X => 0,
        Channel::Y => 1,
        Channel::Z => 2,
        Channel::Wideband => 3,
    }
}

impl Channel {
    /// Position of this channel in the result block.
    pub fn index(self) -> (index: usize)
        ensures
            index == channel_index(self),
    {
        match self {
            Channel::X => 0,
            Channel::Y => 1,
            Channel::Z => 2,
            Channel::Wideband => 3,
        }
    }
}

/// The bits of `REG_INT_CONTROL` that choose which channel the thresholds
/// compare against (bits 6:5).
pub fn threshold_channel_bits(channel: Channel) -> (bits: u16)
    ensures
        bits == 32 * channel_index(channel),
{
    (channel.index() as u16) * 32
}

/// Contents of `REG_FLAGS`.
#[derive(Debug, Clone, Copy, PartialEq, Eq)]
pub struct Flags {
    /// The threshold channel fell below the low threshold.
    pub low: bool,
    /// The threshold channel rose above the high threshold.
    pub high: bool,
    /// A complete four-channel measurement is in the result registers.
    pub conversion_ready: bool,
    /// The input exceeded the selected full-scale range; counts are clipped.
    pub overload: bool,
}

impl Flags {
    /// Decode `REG_FLAGS`: bits 0 to 3 are low, high, ready and overload.
    pub fn from_raw(raw: u16) -> (flags: Self)
        ensures
            flags.low == (raw & 1 != 0),
            flags.high == (raw & 2 != 0),
            flags.conversion_ready == (raw & 4 != 0),
            flags.overload == (raw & 8 != 0),
    {
        Flags {
            low: raw & 1 != 0,
            high: raw & 2 != 0,
            conversion_ready: raw & 4 != 0,
            overload: raw & 8 != 0,
        }
    }
}

/// The two result registers of a single channel, decoded.
#[derive(Debug, Clone, Copy, PartialEq, Eq)]
pub struct ChannelResult {
    /// `EXPONENT`, the binary scale the mantissa has to be shifted by.
    pub exponent: u8,
    /// `RESULT`, the 20-bit mantissa.
    pub mantissa: u32,
    /// `COUNTER`, a 4-bit sample counter incremented once per measurement.
    pub counter: u8,
    /// `CRC`, the 4-bit checksum the device computed; reported as read.
    pub crc: u8,
}

impl ChannelResult {
    /// Linear ADC code of this channel: `mantissa << exponent`, keeping the
    /// low 32 bits.
    pub fn adc_code(&self) -> (code: u32)
        requires
            self.exponent < 32,
        ensures
            code == self.mantissa << self.exponent,
    {
        self.mantissa << self.exponent
    }
}

/// Decode the four bytes of one channel: exponent in the top nibble of the
/// first byte, the 20-bit mantissa after it, then counter and CRC nibbles.
pub open spec fn channel_from_bytes(b0: u8, b1: u8, b2: u8, b3: u8) -> ChannelResult {
    ChannelResult {
        exponent: (b0 / 16) as u8,
        mantissa: ((b0 % 16) as int * 65536 + b1 as int * 256 + b2 as int) as u32,
        counter: (b3 / 16) as u8,
        crc: (b3 % 16) as u8,
    }
}

/// One complete four-channel measurement.
#[derive(Debug, Clone, Copy, PartialEq, Eq)]
pub struct Measurement {
    /// Decoded per-channel results, indexed by [`Channel`].
    pub channels: [ChannelResult; 4],
    /// The input exceeded the selected full-scale range on at least one
    /// channel, so the counts are clipped.
    pub overload: bool,
}

impl Measurement {
    /// Decoded result of one channel.
    pub fn channel(&self, channel: Channel) -> (result: ChannelResult)
        ensures
            result == self.channels@[channel_index(channel)],
    {
        self.channels[channel.index()]
    }

    /// Linear ADC code of one channel.
    pub fn adc_code(&self, channel: Channel) -> (code: u32)
        requires
            self.channels@[channel_index(channel)].exponent < 32,
        ensures
            code == self.channels@[channel_index(channel)].mantissa << self.channels@[channel_index(
                channel,
            )].exponent,
    {
        self.channels[channel.index()].adc_code()
    }
}

/// Decode the 16-byte result block, together with the flags read while
/// waiting for it.
pub fn measurement_from_block(raw: &[u8; 16], flags: Flags) -> (measurement: Measurement)
    ensures
        forall|i: int|
            0 <= i < 4 ==> #[trigger] measurement.channels@[i] == channel_from_bytes(
                raw@[4 * i],
                raw@[4 * i + 1],
                raw@[4 * i + 2],
                raw@[4 * i + 3],
            ),
        forall|i: int| 0 <= i < 4 ==> #[trigger] measurement.channels@[i].exponent < 16,
        measurement.overload == flags.overload,
{
    let empty = ChannelResult { exponent: 0, mantissa: 0, counter: 0, crc: 0 };
    let mut channels = [empty; 4];
    let mut index: usize = 0;
    while index < 4
        invariant
            index <= 4,
            forall|i: int|
                0 <= i < index ==> #[trigger] channels@[i] == channel_from_bytes(
                    raw@[4 * i],
                    raw@[4 * i + 1],
                    raw@[4 * i + 2],
                    raw@[4 * i + 3],
                ),
        decreases 4 - index,
    {
        let b0 = raw[4 * index];
        let b1 = raw[4 * index + 1];
        let b2 = raw[4 * index + 2];
        let b3 = raw[4 * index + 3];
        channels[index] = ChannelResult {
            exponent: b0 / 16,
            mantissa: ((b0 % 16) as u32) * 65536 + (b1 as u32) * 256 + (b2 as u32),
            counter: b3 / 16,
            crc: b3 % 16,
        };
        index = index + 1;
    }
    Measurement { channels, overload: flags.overload }
}

/// Settings applied when the sensor is initialised.
#[derive(Debug, Clone, Copy, PartialEq, Eq)]
pub struct Configuration {
    /// Full-scale light level (`RANGE`).
    pub range: Range,
    /// Per-channel conversion time (`CONVERSION_TIME`).
    pub conversion_time: ConversionTime,
    /// Latch the flags in `REG_FLAGS` until the register is read (`LATCH`).
    pub latch_flags: bool,
}

impl Configuration {
    /// Auto-ranging with 100 ms conversions, matching the device's own reset
    /// values: a 400 ms measurement that covers the full dynamic range.
    pub fn default() -> (configuration: Self)
        ensures
            configuration == (Configuration {
                range: Range::Auto,
                conversion_time: ConversionTime::Ms100,
                latch_flags: true,
            }),
    {
        Configuration { range: Range::Auto, conversion_time: ConversionTime::Ms100, latch_flags: true }
    }

    /// Time one full four-channel measurement takes, in microseconds: the
    /// channels are converted one after another.
    pub fn measurement_time_us(&self) -> (us: u32)
        ensures
            us == 4 * conversion_time_us(self.conversion_time),
    {
        self.conversion_time.microseconds() * 4
    }

    /// The `REG_CONTROL` word for this configuration in `mode`: range in bits
    /// 13:10, conversion time in 9:6, mode in 5:4, latch in 3.
    pub fn control_word(&self, mode: OperatingMode) -> (word: u16)
        ensures
            word == range_code(self.range) as int * 1024 + conversion_time_code(
                self.conversion_time,
            ) as int * 64 + mode_code(mode) as int * 16 + if self.latch_flags {
                8int
            } else {
                0int
            },
    {
        let mut word = (self.range.raw() as u16) * 1024 + (self.conversion_time.raw() as u16) * 64
            + (mode.raw() as u16) * 16;
        if self.latch_flags {
            word = word + 8;
        }
        word
    }
}

/// Errors the device itself can report.
#[derive(Debug, Clone, Copy, PartialEq, Eq)]
pub enum Error {
    /// `REG_DEVICE_ID` did not hold the OPT4048 identifier.
    InvalidDeviceId(u16),
    /// `CONVERSION_READY` was not set within the data-ready timeout.
    MeasurementTimeout,
}

/// Accept only the OPT4048's identifier.
pub fn check_device_id(device_id: u16) -> (result: Result<(), Error>)
    ensures
        result == if device_id == 0x0821 {
            Ok::<(), Error>(())
        } else {
            Err(Error::InvalidDeviceId(device_id))
        },
{
    if device_id != EXPECTED_DEVICE_ID {
        Err(Error::InvalidDeviceId(device_id))
    } else {
        Ok(())
    }
}

} // verus!
