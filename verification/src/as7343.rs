//! The ams AS7343 14-channel spectral sensor: register encodings, the
//! integration-time arithmetic and the decoding of one 18-channel auto-SMUX
//! read-out.
//!
//! In the 18-channel auto-SMUX mode the internal multiplexer runs three
//! integration cycles back to back and stores six results per cycle, so one
//! measurement yields 18 little-endian words: the twelve filtered spectral
//! channels, three unfiltered visible-light readings and three flicker-detect
//! readings.

use vstd::prelude::*;

verus! {

/// Factory-default 7-bit address of the AS7343.
pub const DEFAULT_ADDRESS: u8 = 0x39;

/// First of the bank-1 identification registers (`AUXID`, `REVID`, `ID`).
pub const REG_AUXID: u8 = 0x58;
pub const REG_ENABLE: u8 = 0x80;
pub const REG_ATIME: u8 = 0x81;
/// `AVALID` and the saturation flags.
pub const REG_STATUS2: u8 = 0x90;
pub const REG_STATUS: u8 = 0x93;
/// ADC status; directly precedes the 18 data words.
pub const REG_ASTATUS: u8 = 0x94;
/// `REG_BANK` and `LOW_POWER`.
pub const REG_CFG0: u8 = 0xBF;
/// `AGAIN`.
pub const REG_CFG1: u8 = 0xC6;
pub const REG_LED: u8 = 0xCD;
pub const REG_ASTEP_L: u8 = 0xD4;
pub const REG_ASTEP_H: u8 = 0xD5;
/// `auto_smux`.
pub const REG_CFG20: u8 = 0xD6;
pub const REG_CONTROL: u8 = 0xFA;

/// `REG_BANK` bit of `REG_CFG0`: set maps in bank 1 (0x58-0x7F), clear maps
/// in bank 0 (0x80 and up, the power-on default).
pub const CFG0_REG_BANK_MASK: u8 = 0b0001_0000;
/// `SW_RESET` bit of `REG_CONTROL`.
pub const CONTROL_SW_RESET_MASK: u8 = 0b0000_1000;
/// `PON` bit of `REG_ENABLE`.
pub const ENABLE_PON_MASK: u8 = 0b0000_0001;
/// `SP_EN` bit of `REG_ENABLE`, starting a spectral measurement.
pub const ENABLE_SP_EN_MASK: u8 = 0b0000_0010;
/// `AGAIN` field of `REG_CFG1`.
pub const CFG1_AGAIN_MASK: u8 = 0b0001_1111;
/// `auto_smux` field of `REG_CFG20`, and its 18-channel setting.
pub const CFG20_AUTO_SMUX_MASK: u8 = 0b0110_0000;
pub const CFG20_AUTO_SMUX_18_CHANNEL: u8 = 0b0110_0000;
/// Analog saturation flag of `REG_STATUS2`.
pub const STATUS2_ASAT_ANALOG_MASK: u8 = 0b0000_1000;
/// Digital saturation flag of `REG_STATUS2`.
pub const STATUS2_ASAT_DIGITAL_MASK: u8 = 0b0001_0000;
/// Set in `REG_STATUS2` once a complete measurement is available.
pub const STATUS2_AVALID_MASK: u8 = 0b0100_0000;
/// `AGAIN_STATUS` field of `REG_ASTATUS`.
pub const ASTATUS_AGAIN_STATUS_MASK: u8 = 0b0000_1111;
/// `LED_ACT` bit of `REG_LED`.
pub const LED_ACT_MASK: u8 = 0b1000_0000;
/// `LED_DRIVE` field of `REG_LED`.
pub const LED_DRIVE_MASK: u8 = 0b0111_1111;
/// Status registers clear the bits a 1 is written to.
pub const STATUS_CLEAR_ALL: u8 = 0xFF;

/// Settling time after a software reset.
pub const RESET_DELAY_MS: u64 = 10;
/// Settling time after `PON` is asserted.
pub const POWER_ON_DELAY_US: u64 = 1000;
/// Time between two `AVALID` polls.
pub const DATA_READY_POLL_INTERVAL_MS: u64 = 5;
/// Longest time a read-out waits for `AVALID`.
pub const DATA_READY_TIMEOUT_MS: u64 = 2000;

/// Part number `REG_ID` holds on an AS7343.
pub const EXPECTED_CHIP_ID: u8 = 0x81;

/// Number of words one 18-channel auto-SMUX measurement produces.
pub const CHANNEL_COUNT: usize = 18;
/// Bytes of one read-out: `REG_ASTATUS` followed by the 18 data words.
pub const READOUT_LEN: usize = 37;

/// Duration of one ADC step in nanoseconds.
pub const ASTEP_UNIT_NS: u32 = 2780;
/// Integration cycles the 18-channel auto-SMUX sequence runs.
pub const AUTO_SMUX_18_CHANNEL_CYCLES: u32 = 3;

/// Smallest LED drive current the device can source, in milliamperes.
pub const LED_MIN_CURRENT_MA: u16 = 4;
/// Largest LED drive current the device can source, in milliamperes.
pub const LED_MAX_CURRENT_MA: u16 = 258;
/// Current added per `LED_DRIVE` step, in milliamperes.
pub const LED_CURRENT_STEP_MA: u16 = 2;

/// Spectral measurement gain (`AGAIN` field of `REG_CFG1`).
#[derive(Debug, Clone, Copy, PartialEq, Eq)]
pub enum Gain {
    Gain0_5x,
    Gain1x,
    Gain2x,
    Gain4x,
    Gain8x,
    Gain16x,
    Gain32x,
    Gain64x,
    Gain128x,
    /// Power-on default.
    Gain256x,
    Gain512x,
    Gain1024x,
    Gain2048x,
}

/// Register encoding of a gain: the factor is `0.5 * 2^code`.
pub open spec fn gain_code(gain: Gain) -> u8 {
    match gain {
        Gain::Gain0_5x => 0,
        Gain::Gain1x => 1,
        Gain::Gain2x => 2,
        Gain::Gain4x => 3,
        Gain::Gain8x => 4,
        Gain::Gain16x => 5,
        Gain::Gain32x => 6,
        Gain::Gain64x => 7,
        Gain::Gain128x => 8,
        Gain::Gain256x => 9,
        Gain::Gain512x => 10,
        Gain::Gain1024x => 11,
        Gain::Gain2048x => 12,
    }
}

/// The gain a raw `AGAIN` / `AGAIN_STATUS` code stands for.
pub open spec fn gain_from_code(code: u8) -> Option<Gain> {
    if code == 0 {
        Some(Gain::Gain0_5x)
    } else if code == 1 {
        Some(Gain::Gain1x)
    } else if code == 2 {
        Some(Gain::Gain2x)
    } else if code == 3 {
        Some(Gain::Gain4x)
    } else if code == 4 {
        Some(Gain::Gain8x)
    } else if code == 5 {
        Some(Gain::Gain16x)
    } else if code == 6 {
        Some(Gain::Gain32x)
    } else if code == 7 {
        Some(Gain::Gain64x)
    } else if code == 8 {
        Some(Gain::Gain128x)
    } else if code == 9 {
        Some(Gain::Gain256x)
    } else if code == 10 {
        Some(Gain::Gain512x)
    } else if code == 11 {
        Some(Gain::Gain1024x)
    } else if code == 12 {
        Some(Gain::Gain2048x)
    } else {
        None
    }
}

/// Decoding a gain's own code gives that gain back, and no two gains share a
/// code.
pub proof fn lemma_gain_code_round_trip(gain: Gain)
    ensures
        gain_from_code(gain_code(gain)) == Some(gain),
        gain_code(gain) <= 12,
{
}

impl Gain {
    /// Register encoding of this gain.
    pub fn raw(self) -> (raw: u8)
        ensures
            raw == gain_code(self),
    {
        match self {
            Gain::Gain0_5x => 0,
            Gain::Gain1x => 1,
            Gain::Gain2x => 2,
            Gain::Gain4x => 3,
            Gain::Gain8x => 4,
            Gain::Gain16x => 5,
            Gain::Gain32x => 6,
            Gain::Gain64x => 7,
            Gain::Gain128x => 8,
            Gain::Gain256x => 9,
            Gain::Gain512x => 10,
            Gain::Gain1024x => 11,
            Gain::Gain2048x => 12,
        }
    }

    /// Decode the raw `AGAIN` / `AGAIN_STATUS` field; `None` for the codes
    /// above 12.
    pub fn from_raw(raw: u8) -> (gain: Option<Self>)
        ensures
            gain == gain_from_code(raw),
            gain is None <==> raw > 12,
    {
        match raw {
            0 => Some(Gain::Gain0_5x),
            1 => Some(Gain::Gain1x),
            2 => Some(Gain::Gain2x),
            3 => Some(Gain::Gain4x),
            4 => Some(Gain::Gain8x),
            5 => Some(Gain::Gain16x),
            6 => Some(Gain::Gain32x),
            7 => Some(Gain::Gain64x),
            8 => Some(Gain::Gain128x),
            9 => Some(Gain::Gain256x),
            10 => Some(Gain::Gain512x),
            11 => Some(Gain::Gain1024x),
            12 => Some(Gain::Gain2048x),
            _ => None,
        }
    }
}

/// One of the 18 words a measurement produces, in read-out order.
#[derive(Debug, Clone, Copy, PartialEq, Eq)]
pub enum Channel {
    /// 450 nm.
    Fz,
    /// 555 nm.
    Fy,
    /// 600 nm.
    Fxl,
    /// 855 nm, near infrared.
    Nir,
    /// Unfiltered visible light, cycle 1.
    Visible1,
    /// Flicker-detect ADC, cycle 1.
    FlickerDetect1,
    /// 425 nm.
    F2,
    /// 475 nm.
    F3,
    /// 515 nm.
    F4,
    /// 640 nm.
    F6,
    /// Unfiltered visible light, cycle 2.
    Visible2,
    /// Flicker-detect ADC, cycle 2.
    FlickerDetect2,
    /// 405 nm.
    F1,
    /// 690 nm.
    F7,
    /// 745 nm.
    F8,
    /// 550 nm.
    F5,
    /// Unfiltered visible light, cycle 3.
    Visible3,
    /// Flicker-detect ADC, cycle 3.
    FlickerDetect3,
}

/// Position of a channel's word in a read-out.
pub open spec fn channel_index(channel: Channel) -> nat {
    match channel {
        Channel::Fz => 0,
        Channel::Fy => 1,
        Channel::Fxl => 2,
        Channel::Nir => 3,
        Channel::Visible1 => 4,
        Channel::FlickerDetect1 => 5,
        Channel::F2 => 6,
        Channel::F3 => 7,
        Channel::F4 => 8,
        Channel::F6 => 9,
        Channel::Visible2 => 10,
        Channel::FlickerDetect2 => 11,
        Channel::F1 => 12,
        Channel::F7 => 13,
        Channel::F8 => 14,
        Channel::F5 => 15,
        Channel::Visible3 => 16,
        Channel::FlickerDetect3 => 17,
    }
}

/// Centre wavelength of a filtered channel, in nanometres.
pub open spec fn channel_wavelength(channel: Channel) -> Option<u16> {
    match channel {
        Channel::F1 => Some(405u16),
        Channel::F2 => Some(425u16),
        Channel::Fz => Some(450u16),
        Channel::F3 => Some(475u16),
        Channel::F4 => Some(515u16),
        Channel::F5 => Some(550u16),
        Channel::Fy => Some(555u16),
        Channel::Fxl => Some(600u16),
        Channel::F6 => Some(640u16),
        Channel::F7 => Some(690u16),
        Channel::F8 => Some(745u16),
        Channel::Nir => Some(855u16),
        _ => None,
    }
}

/// Centre wavelength of the filter whose count is word `word` of an
/// 18-channel auto-SMUX read-out, as the datasheet lays the read-out out:
/// three cycles of six words, each cycle four filtered photodiodes followed
/// by the unfiltered and the flicker-detect one (which have no filter).
pub open spec fn readout_wavelength(word: nat) -> Option<u16> {
    let filtered: Seq<u16> = seq![
        450u16, 555u16, 600u16, 855u16,
        425u16, 475u16, 515u16, 640u16,
        405u16, 690u16, 745u16, 550u16,
    ];
    if word < 18 && word % 6 < 4 {
        Some(filtered[((word / 6) * 4 + word % 6) as int])
    } else {
        None
    }
}

/// Whether a channel is one of the flicker-detect readings.
pub open spec fn is_flicker_detect(channel: Channel) -> bool {
    channel is FlickerDetect1 || channel is FlickerDetect2 || channel is FlickerDetect3
}

/// Where each channel's count sits in a read-out: word `i` of a read-out
/// carries the filter of the wavelength the auto-SMUX layout puts there, so
/// a filtered channel's word is the one of its own wavelength; the unfiltered
/// channels take the fifth word of a cycle and the flicker-detect ones the
/// sixth; and no two channels share a word, so the 18 channels are the 18
/// words in some order.
pub proof fn lemma_readout_layout(a: Channel, b: Channel)
    ensures
        channel_index(a) < 18,
        readout_wavelength(channel_index(a)) == channel_wavelength(a),
        channel_wavelength(a) is None ==> channel_index(a) % 6 == (if is_flicker_detect(a) {
            5nat
        } else {
            4nat
        }),
        channel_index(a) == channel_index(b) ==> a == b,
{
}

/// The twelve filtered spectral channels, ordered by centre wavelength.
pub const SPECTRAL_CHANNELS: [Channel; 12] = [
    Channel::F1,
    Channel::F2,
    Channel::Fz,
    Channel::F3,
    Channel::F4,
    Channel::F5,
    Channel::Fy,
    Channel::Fxl,
    Channel::F6,
    Channel::F7,
    Channel::F8,
    Channel::Nir,
];

/// The filtered channels in wavelength order are the twelve that have a
/// filter, each once, from the shortest wavelength to the longest.
pub proof fn lemma_spectral_channels_ascend(i: int, j: int)
    requires
        0 <= i < j < 12,
    ensures
        channel_wavelength(SPECTRAL_CHANNELS@[i]) is Some,
        channel_wavelength(SPECTRAL_CHANNELS@[j]) is Some,
        channel_wavelength(SPECTRAL_CHANNELS@[i])->0 < channel_wavelength(SPECTRAL_CHANNELS@[j])->0,
{
}

impl Channel {
    /// Position of this channel's word in a read-out.
    pub fn index(self) -> (index: usize)
        ensures
            index == channel_index(self),
            index < CHANNEL_COUNT,
    {
        match self {
            Channel::Fz => 0,
            Channel::Fy => 1,
            Channel::Fxl => 2,
            Channel::Nir => 3,
            Channel::Visible1 => 4,
            Channel::FlickerDetect1 => 5,
            Channel::F2 => 6,
            Channel::F3 => 7,
            Channel::F4 => 8,
            Channel::F6 => 9,
            Channel::Visible2 => 10,
            Channel::FlickerDetect2 => 11,
            Channel::F1 => 12,
            Channel::F7 => 13,
            Channel::F8 => 14,
            Channel::F5 => 15,
            Channel::Visible3 => 16,
            Channel::FlickerDetect3 => 17,
        }
    }

    /// Centre wavelength in nanometres, or `None` for the unfiltered visible
    /// and flicker-detect channels.
    pub fn wavelength_nm(self) -> (wavelength: Option<u16>)
        ensures
            wavelength == channel_wavelength(self),
    {
        match self {
            Channel::F1 => Some(405),
            Channel::F2 => Some(425),
            Channel::Fz => Some(450),
            Channel::F3 => Some(475),
            Channel::F4 => Some(515),
            Channel::F5 => Some(550),
            Channel::Fy => Some(555),
            Channel::Fxl => Some(600),
            Channel::F6 => Some(640),
            Channel::F7 => Some(690),
            Channel::F8 => Some(745),
            Channel::Nir => Some(855),
            Channel::Visible1
            | Channel::Visible2
            | Channel::Visible3
            | Channel::FlickerDetect1
            | Channel::FlickerDetect2
            | Channel::FlickerDetect3 => None,
        }
    }
}

/// Device identification read from bank 1.
#[derive(Debug, Clone, Copy, PartialEq, Eq)]
pub struct Identification {
    /// Auxiliary identification (`REG_AUXID`, bits 3:0 are significant).
    pub auxid: u8,
    /// Silicon revision (`REG_REVID`, bits 2:0 are significant).
    pub revid: u8,
    /// Part number; 0x81 for the AS7343.
    pub id: u8,
}

/// One complete 18-channel measurement.
#[derive(Debug, Clone, Copy, PartialEq, Eq)]
pub struct Measurement {
    /// Raw ADC counts, indexed by [`Channel::index`].
    pub raw: [u16; 18],
    /// Gain the device reports it applied (`AGAIN_STATUS` of `REG_ASTATUS`).
    pub gain: Option<Gain>,
    /// At least one ADC exceeded its analog input range; counts are invalid.
    pub analog_saturation: bool,
    /// At least one channel reached full scale; counts are clipped.
    pub digital_saturation: bool,
}

impl Measurement {
    /// Raw ADC counts of one channel.
    pub fn channel(&self, channel: Channel) -> (count: u16)
        ensures
            count == self.raw[channel_index(channel) as int],
    {
        self.raw[channel.index()]
    }

    /// Whether either saturation flag was set for this measurement.
    pub fn saturated(&self) -> (saturated: bool)
        ensures
            saturated == (self.analog_saturation || self.digital_saturation),
    {
        self.analog_saturation || self.digital_saturation
    }
}

/// Little-endian word at `offset` of a byte sequence.
pub open spec fn le_word(bytes: Seq<u8>, offset: int) -> int {
    bytes[offset] as int + 256 * bytes[offset + 1] as int
}

/// Decode one read-out: `REG_ASTATUS` followed by the 18 little-endian data
/// words, together with the `REG_STATUS2` byte that reported `AVALID`.
pub fn measurement_from_readout(status2: u8, raw: &[u8; 37]) -> (measurement: Measurement)
    ensures
        forall|i: int|
            0 <= i < 18 ==> measurement.raw[i] as int == #[trigger] le_word(raw@, 1 + 2 * i),
        measurement.gain == gain_from_code(raw[0] & 0x0F),
        measurement.analog_saturation == (status2 & 0x08 != 0),
        measurement.digital_saturation == (status2 & 0x10 != 0),
{
    let mut counts = [0u16; 18];
    for i in 0..18usize
        invariant
            forall|j: int| 0 <= j < i ==> counts[j] as int == #[trigger] le_word(raw@, 1 + 2 * j),
    {
        counts[i] = raw[1 + 2 * i] as u16 + 256 * (raw[2 + 2 * i] as u16);
    }
    Measurement {
        raw: counts,
        gain: Gain::from_raw(raw[0] & ASTATUS_AGAIN_STATUS_MASK),
        analog_saturation: status2 & STATUS2_ASAT_ANALOG_MASK != 0,
        digital_saturation: status2 & STATUS2_ASAT_DIGITAL_MASK != 0,
    }
}

/// Whether `REG_STATUS2` reports a complete measurement (`AVALID`).
pub fn measurement_valid(status2: u8) -> (valid: bool)
    ensures
        valid == (status2 & 0x40 != 0),
{
    status2 & STATUS2_AVALID_MASK != 0
}

/// Integration time of one cycle in nanoseconds:
/// `(atime + 1) * (astep + 1) * 2.78 us`.
pub open spec fn integration_time_ns(atime: u8, astep: u16) -> int {
    (atime as int + 1) * (astep as int + 1) * 2780
}

/// Gain and integration time of a measurement.
#[derive(Debug, Clone, Copy, PartialEq, Eq)]
pub struct Configuration {
    /// Spectral gain (`AGAIN`).
    pub gain: Gain,
    /// Number of integration steps minus one (`ATIME`).
    pub atime: u8,
    /// Length of one integration step minus one (`ASTEP`), in 2.78 us units.
    /// 0xFFFF is reserved and must not be used.
    pub astep: u16,
}

impl Configuration {
    /// Integration time of a single cycle in whole microseconds. The product
    /// is formed in 32 bits, so it has to fit there.
    pub fn integration_time_us(&self) -> (us: u32)
        requires
            integration_time_ns(self.atime, self.astep) <= u32::MAX,
        ensures
            us as int == integration_time_ns(self.atime, self.astep) / 1000,
    {
        let steps = self.atime as u32 + 1;
        let step_len = self.astep as u32 + 1;
        assert(steps * step_len <= steps * step_len * 2780) by (nonlinear_arith)
            requires
                steps >= 1,
                step_len >= 1,
        ;
        (steps * step_len * ASTEP_UNIT_NS) / 1000
    }

    /// Time one full 18-channel measurement takes, in microseconds: three
    /// integration cycles back to back.
    pub fn measurement_time_us(&self) -> (us: u32)
        requires
            integration_time_ns(self.atime, self.astep) <= u32::MAX,
            (integration_time_ns(self.atime, self.astep) / 1000) * 3 <= u32::MAX,
        ensures
            us as int == (integration_time_ns(self.atime, self.astep) / 1000) * 3,
    {
        self.integration_time_us() * AUTO_SMUX_18_CHANNEL_CYCLES
    }
}

/// The two `ASTEP` register bytes, low byte first.
pub fn astep_bytes(astep: u16) -> (bytes: (u8, u8))
    ensures
        bytes.0 as int == astep as int % 256,
        bytes.1 as int == astep as int / 256,
        bytes.0 as int + 256 * bytes.1 as int == astep as int,
{
    ((astep % 256) as u8, (astep / 256) as u8)
}

/// The `LED_DRIVE` step for a requested current: clamped to 4..=258 mA and
/// rounded down to the 2 mA step.
pub open spec fn led_drive(current_ma: u16) -> int {
    let clamped: int = if current_ma < 4 {
        4
    } else if current_ma > 258 {
        258
    } else {
        current_ma as int
    };
    (clamped - 4) / 2
}

/// `REG_LED` contents: `LED_ACT` when enabled, plus the drive step for
/// `current_ma`.
pub fn led_register_value(enabled: bool, current_ma: u16) -> (value: u8)
    ensures
        value as int == (if enabled {
            128int
        } else {
            0int
        }) + led_drive(current_ma),
        led_drive(current_ma) <= 127,
{
    let clamped: u16 = if current_ma < LED_MIN_CURRENT_MA {
        LED_MIN_CURRENT_MA
    } else if current_ma > LED_MAX_CURRENT_MA {
        LED_MAX_CURRENT_MA
    } else {
        current_ma
    };
    let drive: u8 = ((clamped - LED_MIN_CURRENT_MA) / LED_CURRENT_STEP_MA) as u8;
    if enabled {
        assert(0x80u8 | drive == 128 + drive) by (bit_vector)
            requires
                drive < 128,
        ;
        LED_ACT_MASK | drive
    } else {
        drive
    }
}

/// Which register bank the device has mapped in, as the driver tracks it.
///
/// Every operation that maps in bank 1 maps bank 0 in again before it ends,
/// and a reset or power-on leaves bank 0 mapped in, so `CFG0` only has to be
/// written when the mapped bank really changes.
#[derive(Debug, Clone, Copy, PartialEq, Eq)]
pub struct BankTracker {
    /// `true` while bank 1 is mapped in.
    pub bank1: bool,
}

impl BankTracker {
    /// The state after power-on or a reset: bank 0 mapped in.
    pub fn new() -> (tracker: Self)
        ensures
            !tracker.bank1,
    {
        BankTracker { bank1: false }
    }

    /// Map in the requested bank. Returns the value to merge into `REG_CFG0`
    /// under [`CFG0_REG_BANK_MASK`], or `None` when that bank is already
    /// mapped in and nothing has to be written.
    pub fn select(&mut self, bank1: bool) -> (write: Option<u8>)
        ensures
            final(self).bank1 == bank1,
            write == if old(self).bank1 == bank1 {
                None::<u8>
            } else if bank1 {
                Some(0x10u8)
            } else {
                Some(0u8)
            },
    {
        if self.bank1 == bank1 {
            return None;
        }
        self.bank1 = bank1;
        if bank1 {
            Some(CFG0_REG_BANK_MASK)
        } else {
            Some(0)
        }
    }

    /// Record a software reset, which maps bank 0 in again.
    pub fn reset(&mut self)
        ensures
            !final(self).bank1,
    {
        self.bank1 = false;
    }
}

/// Errors the device itself can report.
#[derive(Debug, Clone, Copy, PartialEq, Eq)]
pub enum Error {
    /// `REG_ID` did not hold the AS7343 part number.
    InvalidChipId(u8),
    /// `AVALID` was not set within the data-ready timeout.
    MeasurementTimeout,
}

/// Accept only the AS7343 part number.
pub fn check_chip_id(identification: &Identification) -> (result: Result<(), Error>)
    ensures
        result == if identification.id == 0x81 {
            Ok::<(), Error>(())
        } else {
            Err(Error::InvalidChipId(identification.id))
        },
{
    if identification.id != EXPECTED_CHIP_ID {
        Err(Error::InvalidChipId(identification.id))
    } else {
        Ok(())
    }
}

} // verus!
