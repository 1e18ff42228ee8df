//! The Melexis MLX90640 32x24 thermal array: the control and status
//! registers, the block reads it needs, the integer part of unpacking its
//! calibration EEPROM, and the bookkeeping of one read-out.
//!
//! Every refresh the device measures one subpage, half of the pixels, and
//! writes it into its RAM block; a complete image takes two read-outs. The
//! calibration constants are two's-complement bit fields packed into 16-bit
//! words, most of them scaled by a power of two stored alongside. This
//! module takes them out as integers; the per-pixel temperature solution
//! itself is floating-point work done by the caller.

use vstd::prelude::*;
use vstd::arithmetic::power2::{pow2, lemma2_to64, lemma_pow2_unfold};

verus! {

/// Factory-default 7-bit address of the MLX90640.
pub const DEFAULT_ADDRESS: u8 = 0x33;

/// Status register: last subpage, data-ready flag, overwrite enable.
pub const REG_STATUS: u16 = 0x8000;
/// Control register 1: refresh rate, ADC resolution, reading pattern.
pub const REG_CONTROL1: u16 = 0x800D;
/// First word of the measurement RAM.
pub const RAM_BASE: u16 = 0x0400;
/// First word of the calibration EEPROM.
pub const EEPROM_BASE: u16 = 0x2400;

/// Value written to the status register to acknowledge a frame: clears the
/// data-ready flag and keeps overwriting enabled.
pub const STATUS_ACKNOWLEDGE: u16 = 0x0030;
/// The bits of control register 1 a [`Configuration`] owns: refresh rate
/// (9:7), resolution (11:10) and the chess-pattern flag (12).
pub const CONTROL1_CONFIGURATION_MASK: u16 = 0x1F80;

/// Columns in the array.
pub const COLUMNS: usize = 32;
/// Rows in the array.
pub const ROWS: usize = 24;
/// Pixels in the array.
pub const PIXEL_COUNT: usize = 768;
/// Words in the measurement RAM block: 768 pixels plus 64 auxiliary words.
pub const RAM_WORDS: usize = 832;
/// Words in the calibration EEPROM block.
pub const EEPROM_WORDS: usize = 832;

/// Largest number of 16-bit words one I2C transfer may carry.
pub const MAX_WORDS_PER_TRANSFER: usize = 127;
/// How many times a frame read is repeated when the device overwrote the
/// RAM while it was being read.
pub const FRAME_READ_ATTEMPTS: usize = 4;
/// Number of pixels the EEPROM may flag as deviating, per kind.
pub const MAX_DEVIATING_PIXELS: usize = 4;

/// Errors the device or its calibration can produce.
#[derive(Debug, Clone, Copy, PartialEq, Eq)]
pub enum Error {
    /// A register did not read back the value just written to it.
    WriteVerification { register: u16, written: u16, read: u16 },
    /// A frame was read before the device had a new subpage.
    FrameNotReady,
    /// The device finished a new subpage during every attempt to read one.
    FrameOverwritten,
    /// The EEPROM flags more than four pixels of one kind as deviating;
    /// carries the number of broken and out-of-tolerance pixels together.
    TooManyDeviatingPixels(usize),
}

/// Refresh rate of a subpage (bits 9:7 of control register 1).
#[derive(Debug, Clone, Copy, PartialEq, Eq)]
pub enum RefreshRate {
    Hz0_5,
    Hz1,
    /// Power-on default.
    Hz2,
    Hz4,
    Hz8,
    Hz16,
    Hz32,
    Hz64,
}

/// Field code of a refresh rate.
pub open spec fn refresh_rate_code(rate: RefreshRate) -> u16 {
    match rate {
        RefreshRate::Hz0_5 => 0,
        RefreshRate::Hz1 => 1,
        RefreshRate::Hz2 => 2,
        RefreshRate::Hz4 => 3,
        RefreshRate::Hz8 => 4,
        RefreshRate::Hz16 => 5,
        RefreshRate::Hz32 => 6,
        RefreshRate::Hz64 => 7,
    }
}

/// The refresh rate of a 3-bit field code.
pub open spec fn refresh_rate_of(code: u16) -> RefreshRate {
    if code == 0 {
        RefreshRate::Hz0_5
    } else if code == 1 {
        RefreshRate::Hz1
    } else if code == 2 {
        RefreshRate::Hz2
    } else if code == 3 {
        RefreshRate::Hz4
    } else if code == 4 {
        RefreshRate::Hz8
    } else if code == 5 {
        RefreshRate::Hz16
    } else if code == 6 {
        RefreshRate::Hz32
    } else {
        RefreshRate::Hz64
    }
}

impl RefreshRate {
    /// Field code of this rate.
    pub fn raw(self) -> (raw: u16)
        ensures
            raw == refresh_rate_code(self),
            raw <= 7,
    {
        match self {
            RefreshRate::Hz0_5 => 0,
            RefreshRate::Hz1 => 1,
            RefreshRate::Hz2 => 2,
            RefreshRate::Hz4 => 3,
            RefreshRate::Hz8 => 4,
            RefreshRate::Hz16 => 5,
            RefreshRate::Hz32 => 6,
            RefreshRate::Hz64 => 7,
        }
    }

    /// Decode the 3-bit field; only the low three bits of `raw` count.
    pub fn from_raw(raw: u16) -> (rate: Self)
        ensures
            rate == refresh_rate_of(raw % 8),
    {
        let code = raw % 8;
        if code == 0 {
            RefreshRate::Hz0_5
        } else if code == 1 {
            RefreshRate::Hz1
        } else if code == 2 {
            RefreshRate::Hz2
        } else if code == 3 {
            RefreshRate::Hz4
        } else if code == 4 {
            RefreshRate::Hz8
        } else if code == 5 {
            RefreshRate::Hz16
        } else if code == 6 {
            RefreshRate::Hz32
        } else {
            RefreshRate::Hz64
        }
    }

    /// Time between two subpages, in microseconds: `2 s / 2^code`.
    pub fn subpage_period_us(self) -> (us: u64)
        ensures
            us as int * pow2(refresh_rate_code(self) as nat) == 2_000_000,
            us <= 2_000_000,
    {
        proof {
            lemma2_to64();
        }
        match self {
            RefreshRate::Hz0_5 => 2_000_000,
            RefreshRate::Hz1 => 1_000_000,
            RefreshRate::Hz2 => 500_000,
            RefreshRate::Hz4 => 250_000,
            RefreshRate::Hz8 => 125_000,
            RefreshRate::Hz16 => 62_500,
            RefreshRate::Hz32 => 31_250,
            RefreshRate::Hz64 => 15_625,
        }
    }

    /// Time between two complete images, in microseconds: two subpages.
    pub fn image_period_us(self) -> (us: u64)
        ensures
            us as int * pow2(refresh_rate_code(self) as nat) == 4_000_000,
    {
        let subpage = self.subpage_period_us();
        let ghost p = pow2(refresh_rate_code(self) as nat);
        assert((2 * subpage) as int * p == 2 * (subpage as int * p)) by (nonlinear_arith);
        2 * subpage
    }
}

/// ADC resolution (bits 11:10 of control register 1).
#[derive(Debug, Clone, Copy, PartialEq, Eq)]
pub enum Resolution {
    Bits16,
    Bits17,
    /// Power-on default.
    Bits18,
    Bits19,
}

/// Field code of a resolution.
pub open spec fn resolution_code(resolution: Resolution) -> u16 {
    match resolution {
        Resolution::Bits16 => 0,
        Resolution::Bits17 => 1,
        Resolution::Bits18 => 2,
        Resolution::Bits19 => 3,
    }
}

/// The resolution of a 2-bit field code.
pub open spec fn resolution_of(code: u16) -> Resolution {
    if code == 0 {
        Resolution::Bits16
    } else if code == 1 {
        Resolution::Bits17
    } else if code == 2 {
        Resolution::Bits18
    } else {
        Resolution::Bits19
    }
}

impl Resolution {
    /// Field code of this resolution.
    pub fn raw(self) -> (raw: u16)
        ensures
            raw == resolution_code(self),
            raw <= 3,
    {
        match self {
            Resolution::Bits16 => 0,
            Resolution::Bits17 => 1,
            Resolution::Bits18 => 2,
            Resolution::Bits19 => 3,
        }
    }

    /// Decode the 2-bit field; only the low two bits of `raw` count.
    pub fn from_raw(raw: u16) -> (resolution: Self)
        ensures
            resolution == resolution_of(raw % 4),
    {
        let code = raw % 4;
        if code == 0 {
            Resolution::Bits16
        } else if code == 1 {
            Resolution::Bits17
        } else if code == 2 {
            Resolution::Bits18
        } else {
            Resolution::Bits19
        }
    }
}

/// Which half of the array each subpage covers (bit 12 of control
/// register 1).
#[derive(Debug, Clone, Copy, PartialEq, Eq)]
pub enum Pattern {
    /// Odd and even rows.
    Interleaved,
    /// The squares of a chessboard; the factory default.
    Chess,
}

/// Refresh rate, ADC resolution and reading pattern.
#[derive(Debug, Clone, Copy, PartialEq, Eq)]
pub struct Configuration {
    pub refresh_rate: RefreshRate,
    pub resolution: Resolution,
    pub pattern: Pattern,
}

/// The bits of control register 1 a configuration sets.
pub open spec fn control_bits_of(configuration: Configuration) -> u16 {
    (128 * refresh_rate_code(configuration.refresh_rate) + 1024 * resolution_code(
        configuration.resolution,
    ) + if configuration.pattern == Pattern::Chess {
        4096int
    } else {
        0int
    }) as u16
}

/// The configuration a control register 1 value holds.
pub open spec fn configuration_of(control: u16) -> Configuration {
    Configuration {
        refresh_rate: refresh_rate_of((control / 128) % 8),
        resolution: resolution_of((control / 1024) % 4),
        pattern: if (control / 4096) % 2 == 1 {
            Pattern::Chess
        } else {
            Pattern::Interleaved
        },
    }
}

/// Writing a configuration's bits and reading them back gives the same
/// configuration.
pub proof fn lemma_configuration_round_trip(configuration: Configuration)
    ensures
        configuration_of(control_bits_of(configuration)) == configuration,
{
}

impl Default for Configuration {
    /// The device's power-on settings: 2 Hz per subpage, 18-bit ADC, chess.
    fn default() -> (configuration: Self)
        ensures
            configuration == (Configuration {
                refresh_rate: RefreshRate::Hz2,
                resolution: Resolution::Bits18,
                pattern: Pattern::Chess,
            }),
    {
        Configuration {
            refresh_rate: RefreshRate::Hz2,
            resolution: Resolution::Bits18,
            pattern: Pattern::Chess,
        }
    }
}

impl Configuration {
    /// Time between two subpages, in microseconds.
    pub fn subpage_period_us(&self) -> (us: u64)
        ensures
            us as int * pow2(refresh_rate_code(self.refresh_rate) as nat) == 2_000_000,
    {
        self.refresh_rate.subpage_period_us()
    }

    /// Time between two complete images, in microseconds.
    pub fn image_period_us(&self) -> (us: u64)
        ensures
            us as int * pow2(refresh_rate_code(self.refresh_rate) as nat) == 4_000_000,
    {
        self.refresh_rate.image_period_us()
    }

    /// The bits of control register 1 this configuration sets.
    pub fn control_bits(&self) -> (bits: u16)
        ensures
            bits == control_bits_of(*self),
    {
        let chess: u16 = match self.pattern {
            Pattern::Chess => 4096,
            Pattern::Interleaved => 0,
        };
        128 * self.refresh_rate.raw() + 1024 * self.resolution.raw() + chess
    }

    /// Decode a control register 1 value.
    pub fn from_control(control: u16) -> (configuration: Self)
        ensures
            configuration == configuration_of(control),
    {
        Configuration {
            refresh_rate: RefreshRate::from_raw(control / 128),
            resolution: Resolution::from_raw(control / 1024),
            pattern: if (control / 4096) % 2 == 1 {
                Pattern::Chess
            } else {
                Pattern::Interleaved
            },
        }
    }
}

/// The control register 1 value that applies `configuration` while keeping
/// every bit it does not own.
pub fn control_register_update(current: u16, configuration: &Configuration) -> (updated: u16)
    ensures
        updated == (current & !0x1F80u16) | control_bits_of(*configuration),
{
    (current & !CONTROL1_CONFIGURATION_MASK) | configuration.control_bits()
}

/// Confirm that a register read back the value just written to it.
pub fn check_write(register: u16, written: u16, read: u16) -> (result: Result<(), Error>)
    ensures
        result == if read == written {
            Ok::<(), Error>(())
        } else {
            Err(Error::WriteVerification { register, written, read })
        },
{
    if read != written {
        Err(Error::WriteVerification { register, written, read })
    } else {
        Ok(())
    }
}

/// Decoded status register.
#[derive(Debug, Clone, Copy, PartialEq, Eq)]
pub struct Status {
    /// The subpage the device measured last (bits 2:0).
    pub subpage: u8,
    /// A subpage has been written since the flag was last cleared.
    pub data_ready: bool,
    /// The device may overwrite RAM that has not been read out.
    pub overwrite_enabled: bool,
}

impl Status {
    /// Decode the status register.
    pub fn from_raw(raw: u16) -> (status: Self)
        ensures
            status.subpage == raw % 8,
            status.data_ready == ((raw / 8) % 2 == 1),
            status.overwrite_enabled == ((raw / 16) % 2 == 1),
    {
        Status {
            subpage: (raw % 8) as u8,
            data_ready: (raw / 8) % 2 == 1,
            overwrite_enabled: (raw / 16) % 2 == 1,
        }
    }
}

/// What to do after reading the RAM block, given the status read right
/// after it and how many attempts (counting this one) were made.
#[derive(Debug, Clone, Copy, PartialEq, Eq)]
pub enum FrameReadStep {
    /// No new subpage arrived during the read: the RAM holds one subpage.
    Done,
    /// A new subpage arrived meanwhile: acknowledge and read again.
    Retry,
    /// Every attempt was overtaken by the device.
    Overwritten,
}

/// Decide how a frame read goes on.
pub fn frame_read_step(status: &Status, attempts: usize) -> (step: FrameReadStep)
    ensures
        step == if !status.data_ready {
            FrameReadStep::Done
        } else if attempts >= 4 {
            FrameReadStep::Overwritten
        } else {
            FrameReadStep::Retry
        },
{
    if !status.data_ready {
        FrameReadStep::Done
    } else if attempts >= FRAME_READ_ATTEMPTS {
        FrameReadStep::Overwritten
    } else {
        FrameReadStep::Retry
    }
}

/// Which of the four calibration quadrants a pixel belongs to: row parity
/// and column parity, counting from 0.
pub open spec fn quadrant_of(pixel: int) -> int {
    2 * ((pixel / 32) % 2) + pixel % 2
}

/// Which of the four calibration quadrants a pixel belongs to.
pub fn quadrant(pixel: usize) -> (q: usize)
    ensures
        q == quadrant_of(pixel as int),
        q < 4,
{
    2 * ((pixel / COLUMNS) % 2) + pixel % 2
}

/// The subpage a pixel belongs to: its row parity in the interleaved
/// pattern, row parity exclusive-or column parity in the chess pattern.
pub open spec fn subpage_of(pixel: int, chess: bool) -> int {
    let row_parity = (pixel / 32) % 2;
    if chess {
        if row_parity == pixel % 2 {
            0
        } else {
            1
        }
    } else {
        row_parity
    }
}

/// The subpage a pixel belongs to.
pub fn pixel_subpage(pixel: usize, chess: bool) -> (subpage: u8)
    ensures
        subpage == subpage_of(pixel as int, chess),
{
    let row_parity = (pixel / COLUMNS) % 2;
    if chess {
        if row_parity == pixel % 2 {
            0
        } else {
            1
        }
    } else {
        row_parity as u8
    }
}

/// The position term of the interleaved-pattern correction: it alternates
/// with the position inside each group of four pixels along the row, and
/// changes sign with the row parity.
pub open spec fn interleave_group_of(pixel: int) -> int {
    ((pixel + 2) / 4 - (pixel + 3) / 4 + (pixel + 1) / 4 - pixel / 4) * (1 - 2 * ((pixel / 32)
        % 2))
}

/// The position term of the interleaved-pattern correction.
pub fn interleave_group(pixel: usize) -> (group: i32)
    requires
        pixel < 768,
    ensures
        group == interleave_group_of(pixel as int),
{
    let row_parity = (pixel / COLUMNS) % 2;
    let rising = ((pixel + 2) / 4 + (pixel + 1) / 4) as i32;
    let falling = ((pixel + 3) / 4 + pixel / 4) as i32;
    let group = rising - falling;
    assert(-1 <= group <= 1);
    assert(group * (1 - 2 * row_parity as int) == if row_parity == 0 {
        group as int
    } else {
        -group
    }) by (nonlinear_arith)
        requires
            row_parity == 0 || row_parity == 1,
    ;
    if row_parity == 0 {
        group
    } else {
        -group
    }
}

/// Two's-complement value of a field below `modulus`.
pub open spec fn twos(value: int, modulus: int) -> int {
    if value >= modulus / 2 {
        value - modulus
    } else {
        value
    }
}

/// Two's-complement value of a field held in the low bits of a word.
fn signed_field(value: u16, modulus: u32) -> (signed: i32)
    requires
        2 <= modulus <= 65536,
        value < modulus,
    ensures
        signed == twos(value as int, modulus as int),
{
    if value as u32 >= modulus / 2 {
        value as i32 - modulus as i32
    } else {
        value as i32
    }
}

/// `2^exponent` for the scale exponents the EEPROM holds.
fn scale_factor(exponent: u16) -> (factor: i64)
    requires
        exponent <= 15,
    ensures
        factor == pow2(exponent as nat),
        1 <= factor <= 32768,
{
    proof {
        lemma2_to64();
    }
    match exponent {
        0 => 1,
        1 => 2,
        2 => 4,
        3 => 8,
        4 => 16,
        5 => 32,
        6 => 64,
        7 => 128,
        8 => 256,
        9 => 512,
        10 => 1024,
        11 => 2048,
        12 => 4096,
        13 => 8192,
        14 => 16384,
        _ => 32768,
    }
}

/// The divisor that brings nibble `k` of a word down to the bottom.
pub open spec fn nibble_divisor(k: int) -> int {
    if k == 0 {
        1
    } else if k == 1 {
        16
    } else if k == 2 {
        256
    } else {
        4096
    }
}

/// Signed nibble `index` of a run of words starting at `start`, four per
/// word in ascending order.
pub open spec fn nibble_at(words: Seq<u16>, start: int, index: int) -> int {
    twos((words[start + index / 4] as int / nibble_divisor(index % 4)) % 16, 16)
}

/// Unpack `count` signed 4-bit fields, four per word, from the words
/// starting at `start`.
pub fn unpack_nibbles(words: &[u16], start: usize, count: usize) -> (values: Vec<i32>)
    requires
        start + (count + 3) / 4 <= words.len(),
    ensures
        values@.len() == count,
        forall|i: int| 0 <= i < count ==> values@[i] == #[trigger] nibble_at(words@, start as int, i),
        forall|i: int| 0 <= i < count ==> -8 <= #[trigger] values@[i] <= 7,
{
    let mut values: Vec<i32> = Vec::new();
    for index in 0..count
        invariant
            start + (count + 3) / 4 <= words.len(),
            values@.len() == index,
            forall|i: int|
                0 <= i < index ==> values@[i] == #[trigger] nibble_at(words@, start as int, i),
            forall|i: int| 0 <= i < index ==> -8 <= #[trigger] values@[i] <= 7,
    {
        let word = words[start + index / 4];
        let divisor: u16 = if index % 4 == 0 {
            1
        } else if index % 4 == 1 {
            16
        } else if index % 4 == 2 {
            256
        } else {
            4096
        };
        let value = signed_field((word / divisor) % 16, 16);
        values.push(value);
    }
    values
}

/// Per-pixel offset, in ADC counts: a signed 16-bit reference in word 17,
/// plus the row nibble (words 18..24) and the column nibble (words 24..32)
/// each scaled by its exponent from word 16, plus the pixel's own signed
/// 6-bit remainder (bits 15:10 of its word) scaled by the third exponent.
pub open spec fn offset_of(ee: Seq<u16>, pixel: int) -> int {
    twos(ee[17] as int, 65536) + nibble_at(ee, 18, pixel / 32) * pow2(
        ((ee[16] as int / 256) % 16) as nat,
    ) + nibble_at(ee, 24, pixel % 32) * pow2(((ee[16] as int / 16) % 16) as nat) + twos(
        (ee[64 + pixel] as int / 1024) % 64,
        64,
    ) * pow2((ee[16] as int % 16) as nat)
}

/// Per-pixel sensitivity before scaling: the unsigned reference in word
/// 33, plus the row nibble (words 34..40) and column nibble (words 40..48)
/// scaled by their exponents from word 32, plus the pixel's signed 6-bit
/// remainder (bits 9:4 of its word) scaled by the third exponent.
pub open spec fn alpha_raw_of(ee: Seq<u16>, pixel: int) -> int {
    ee[33] as int + nibble_at(ee, 34, pixel / 32) * pow2(((ee[32] as int / 256) % 16) as nat)
        + nibble_at(ee, 40, pixel % 32) * pow2(((ee[32] as int / 16) % 16) as nat) + twos(
        (ee[64 + pixel] as int / 16) % 64,
        64,
    ) * pow2((ee[32] as int % 16) as nat)
}

/// Raising one 4-bit field of a word by one leaves the other fields alone.
proof fn lemma_raise_field(w: u32)
    requires
        w < 65536,
    ensures
        (w / 256) % 16 < 15 ==> w + 256 < 65536 && ((w + 256) / 256) % 16 == (w / 256) % 16 + 1
            && ((w + 256) / 16) % 16 == (w / 16) % 16 && (w + 256) % 16 == w % 16,
        (w / 16) % 16 < 15 ==> w + 16 < 65536 && ((w + 16) / 256) % 16 == (w / 256) % 16 && ((w
            + 16) / 16) % 16 == (w / 16) % 16 + 1 && (w + 16) % 16 == w % 16,
        w % 16 < 15 ==> w + 1 < 65536 && ((w + 1) / 256) % 16 == (w / 256) % 16 && ((w + 1) / 16)
            % 16 == (w / 16) % 16 && (w + 1) % 16 == w % 16 + 1,
{
    assert((w / 256) % 16 < 15 ==> w + 256 < 65536 && ((w + 256) / 256) % 16 == (w / 256) % 16
        + 1 && ((w + 256) / 16) % 16 == (w / 16) % 16 && (w + 256) % 16 == w % 16)
        by (bit_vector)
        requires
            w < 65536,
    ;
    assert((w / 16) % 16 < 15 ==> w + 16 < 65536 && ((w + 16) / 256) % 16 == (w / 256) % 16 && ((
    w + 16) / 16) % 16 == (w / 16) % 16 + 1 && (w + 16) % 16 == w % 16) by (bit_vector)
        requires
            w < 65536,
    ;
    assert(w % 16 < 15 ==> w + 1 < 65536 && ((w + 1) / 256) % 16 == (w / 256) % 16 && ((w + 1)
        / 16) % 16 == (w / 16) % 16 && (w + 1) % 16 == w % 16 + 1) by (bit_vector)
        requires
            w < 65536,
    ;
}

/// `2^(e + 1)` times a value is twice `2^e` times it.
proof fn lemma_scale_step(value: int, e: nat)
    ensures
        value * pow2(e + 1) == value * pow2(e) + value * pow2(e),
{
    lemma_pow2_unfold(e + 1);
    assert(value * pow2(e + 1) == value * pow2(e) + value * pow2(e)) by (nonlinear_arith)
        requires
            pow2(e + 1) == 2 * pow2(e),
    ;
}

/// The sensitivity of a pixel when word 32 is replaced by `raised`, all
/// other words kept.
pub open spec fn alpha_with_word32(ee: Seq<u16>, raised: int, pixel: int) -> int {
    alpha_raw_of(ee.update(32, raised as u16), pixel)
}

/// The row exponent (bits 11:8 of word 32) scales the row correction:
/// raising it by one adds the pixel's row correction once more at the old
/// scale and leaves every other term as it was.
pub proof fn lemma_alpha_row_exponent(ee: Seq<u16>, pixel: int)
    requires
        ee.len() == 832,
        0 <= pixel < 768,
        (ee[32] as int / 256) % 16 < 15,
    ensures
        alpha_with_word32(ee, ee[32] + 256, pixel) == alpha_raw_of(ee, pixel) + nibble_at(
            ee,
            34,
            pixel / 32,
        ) * pow2(((ee[32] as int / 256) % 16) as nat),
{
    let w = ee[32];
    lemma_raise_field(w as u32);
    let raised = ee.update(32, (w + 256) as u16);
    assert(nibble_at(raised, 34, pixel / 32) == nibble_at(ee, 34, pixel / 32));
    assert(nibble_at(raised, 40, pixel % 32) == nibble_at(ee, 40, pixel % 32));
    lemma_scale_step(nibble_at(ee, 34, pixel / 32), ((w as int / 256) % 16) as nat);
}

/// The column exponent (bits 7:4 of word 32) scales the column correction:
/// raising it by one adds the pixel's column correction once more at the old
/// scale and leaves every other term as it was.
pub proof fn lemma_alpha_column_exponent(ee: Seq<u16>, pixel: int)
    requires
        ee.len() == 832,
        0 <= pixel < 768,
        (ee[32] as int / 16) % 16 < 15,
    ensures
        alpha_with_word32(ee, ee[32] + 16, pixel) == alpha_raw_of(ee, pixel) + nibble_at(
            ee,
            40,
            pixel % 32,
        ) * pow2(((ee[32] as int / 16) % 16) as nat),
{
    let w = ee[32];
    lemma_raise_field(w as u32);
    let raised = ee.update(32, (w + 16) as u16);
    assert(nibble_at(raised, 34, pixel / 32) == nibble_at(ee, 34, pixel / 32));
    assert(nibble_at(raised, 40, pixel % 32) == nibble_at(ee, 40, pixel % 32));
    lemma_scale_step(nibble_at(ee, 40, pixel % 32), ((w as int / 16) % 16) as nat);
}

/// The remainder exponent (bits 3:0 of word 32) scales the pixel's own
/// remainder (bits 9:4 of its word) in the same way.
pub proof fn lemma_alpha_remainder_exponent(ee: Seq<u16>, pixel: int)
    requires
        ee.len() == 832,
        0 <= pixel < 768,
        ee[32] as int % 16 < 15,
    ensures
        alpha_with_word32(ee, ee[32] + 1, pixel) == alpha_raw_of(ee, pixel) + twos(
            (ee[64 + pixel] as int / 16) % 64,
            64,
        ) * pow2((ee[32] as int % 16) as nat),
{
    let w = ee[32];
    lemma_raise_field(w as u32);
    let raised = ee.update(32, (w + 1) as u16);
    assert(nibble_at(raised, 34, pixel / 32) == nibble_at(ee, 34, pixel / 32));
    assert(nibble_at(raised, 40, pixel % 32) == nibble_at(ee, 40, pixel % 32));
    lemma_scale_step(twos((ee[64 + pixel] as int / 16) % 64, 64), (w as int % 16) as nat);
}

/// The offset of a pixel when word 16 is replaced by `raised`, all other
/// words kept.
pub open spec fn offset_with_word16(ee: Seq<u16>, raised: int, pixel: int) -> int {
    offset_of(ee.update(16, raised as u16), pixel)
}

/// The offset's exponents in word 16 scale their own corrections: raising
/// the row exponent (bits 11:8), the column exponent (bits 7:4) or the
/// remainder exponent (bits 3:0) by one adds the pixel's row correction, its
/// column correction or its remainder (bits 15:10 of its word) once more at
/// the old scale.
pub proof fn lemma_offset_exponents(ee: Seq<u16>, pixel: int)
    requires
        ee.len() == 832,
        0 <= pixel < 768,
    ensures
        (ee[16] as int / 256) % 16 < 15 ==> offset_with_word16(ee, ee[16] + 256, pixel)
            == offset_of(ee, pixel) + nibble_at(ee, 18, pixel / 32) * pow2(
            ((ee[16] as int / 256) % 16) as nat,
        ),
        (ee[16] as int / 16) % 16 < 15 ==> offset_with_word16(ee, ee[16] + 16, pixel)
            == offset_of(ee, pixel) + nibble_at(ee, 24, pixel % 32) * pow2(
            ((ee[16] as int / 16) % 16) as nat,
        ),
        ee[16] as int % 16 < 15 ==> offset_with_word16(ee, ee[16] + 1, pixel) == offset_of(
            ee,
            pixel,
        ) + twos((ee[64 + pixel] as int / 1024) % 64, 64) * pow2((ee[16] as int % 16) as nat),
{
    let w = ee[16];
    lemma_raise_field(w as u32);
    let row = nibble_at(ee, 18, pixel / 32);
    let column = nibble_at(ee, 24, pixel % 32);
    let remainder = twos((ee[64 + pixel] as int / 1024) % 64, 64);
    if (w as int / 256) % 16 < 15 {
        let raised = ee.update(16, (w + 256) as u16);
        assert(nibble_at(raised, 18, pixel / 32) == row);
        assert(nibble_at(raised, 24, pixel % 32) == column);
        lemma_scale_step(row, ((w as int / 256) % 16) as nat);
    }
    if (w as int / 16) % 16 < 15 {
        let raised = ee.update(16, (w + 16) as u16);
        assert(nibble_at(raised, 18, pixel / 32) == row);
        assert(nibble_at(raised, 24, pixel % 32) == column);
        lemma_scale_step(column, ((w as int / 16) % 16) as nat);
    }
    if w as int % 16 < 15 {
        let raised = ee.update(16, (w + 1) as u16);
        assert(nibble_at(raised, 18, pixel / 32) == row);
        assert(nibble_at(raised, 24, pixel % 32) == column);
        lemma_scale_step(remainder, (w as int % 16) as nat);
    }
}

/// Base value of the ambient-temperature coefficient of a quadrant: the
/// signed bytes of words 54 and 55, high bytes for the odd rows.
pub open spec fn kta_base_of(ee: Seq<u16>, quadrant: int) -> int {
    if quadrant == 0 {
        twos(ee[54] as int / 256, 256)
    } else if quadrant == 1 {
        twos(ee[55] as int / 256, 256)
    } else if quadrant == 2 {
        twos(ee[54] as int % 256, 256)
    } else {
        twos(ee[55] as int % 256, 256)
    }
}

/// Per-pixel ambient-temperature coefficient before scaling: the base of
/// its quadrant plus its signed 3-bit remainder (bits 3:1 of its word)
/// scaled by the exponent in word 56.
pub open spec fn kta_raw_of(ee: Seq<u16>, pixel: int) -> int {
    kta_base_of(ee, quadrant_of(pixel)) + twos((ee[64 + pixel] as int / 2) % 8, 8) * pow2(
        (ee[56] as int % 16) as nat,
    )
}

/// One scaled nibble term, within the bounds a 32-bit sum needs.
fn scaled_nibble(nibble: i32, exponent: u16) -> (term: i64)
    requires
        -8 <= nibble <= 7,
        exponent <= 15,
    ensures
        term == nibble as int * pow2(exponent as nat),
        -262144 <= term <= 229376,
{
    let factor = scale_factor(exponent);
    assert(-262144 <= nibble as int * factor <= 229376) by (nonlinear_arith)
        requires
            -8 <= nibble <= 7,
            1 <= factor <= 32768,
    ;
    nibble as i64 * factor
}

/// One scaled 6-bit remainder, within the bounds a 32-bit sum needs.
fn scaled_remainder(remainder: i32, exponent: u16) -> (term: i64)
    requires
        -32 <= remainder <= 31,
        exponent <= 15,
    ensures
        term == remainder as int * pow2(exponent as nat),
        -1048576 <= term <= 1015808,
{
    let factor = scale_factor(exponent);
    assert(-1048576 <= remainder as int * factor <= 1015808) by (nonlinear_arith)
        requires
            -32 <= remainder <= 31,
            1 <= factor <= 32768,
    ;
    remainder as i64 * factor
}

/// Every pixel's offset, in ADC counts.
pub fn pixel_offsets(ee: &[u16; 832]) -> (offsets: Vec<i32>)
    ensures
        offsets@.len() == 768,
        forall|p: int| 0 <= p < 768 ==> offsets@[p] == #[trigger] offset_of(ee@, p),
{
    let word = ee[16];
    let remainder_scale = word % 16;
    let column_scale = (word / 16) % 16;
    let row_scale = (word / 256) % 16;
    let reference = signed_field(ee[17], 65536);
    let rows = unpack_nibbles(ee, 18, ROWS);
    let columns = unpack_nibbles(ee, 24, COLUMNS);
    let mut offsets: Vec<i32> = Vec::new();
    for pixel in 0..PIXEL_COUNT
        invariant
            rows@.len() == 24,
            columns@.len() == 32,
            forall|i: int| 0 <= i < 24 ==> rows@[i] == #[trigger] nibble_at(ee@, 18, i),
            forall|i: int| 0 <= i < 24 ==> -8 <= #[trigger] rows@[i] <= 7,
            forall|i: int| 0 <= i < 32 ==> columns@[i] == #[trigger] nibble_at(ee@, 24, i),
            forall|i: int| 0 <= i < 32 ==> -8 <= #[trigger] columns@[i] <= 7,
            word == ee[16],
            remainder_scale == word % 16,
            column_scale == (word / 16) % 16,
            row_scale == (word / 256) % 16,
            reference == twos(ee[17] as int, 65536),
            offsets@.len() == pixel,
            forall|p: int| 0 <= p < pixel ==> offsets@[p] == #[trigger] offset_of(ee@, p),
    {
        let remainder = signed_field((ee[64 + pixel] / 1024) % 64, 64);
        let row_term = scaled_nibble(rows[pixel / COLUMNS], row_scale);
        let column_term = scaled_nibble(columns[pixel % COLUMNS], column_scale);
        let remainder_term = scaled_remainder(remainder, remainder_scale);
        let value = reference as i64 + row_term + column_term + remainder_term;
        offsets.push(value as i32);
    }
    offsets
}

/// Every pixel's sensitivity before scaling.
pub fn pixel_alpha_raw(ee: &[u16; 832]) -> (alphas: Vec<i32>)
    ensures
        alphas@.len() == 768,
        forall|p: int| 0 <= p < 768 ==> alphas@[p] == #[trigger] alpha_raw_of(ee@, p),
{
    let word = ee[32];
    let remainder_scale = word % 16;
    let column_scale = (word / 16) % 16;
    let row_scale = (word / 256) % 16;
    let reference = ee[33];
    let rows = unpack_nibbles(ee, 34, ROWS);
    let columns = unpack_nibbles(ee, 40, COLUMNS);
    let mut alphas: Vec<i32> = Vec::new();
    for pixel in 0..PIXEL_COUNT
        invariant
            rows@.len() == 24,
            columns@.len() == 32,
            forall|i: int| 0 <= i < 24 ==> rows@[i] == #[trigger] nibble_at(ee@, 34, i),
            forall|i: int| 0 <= i < 24 ==> -8 <= #[trigger] rows@[i] <= 7,
            forall|i: int| 0 <= i < 32 ==> columns@[i] == #[trigger] nibble_at(ee@, 40, i),
            forall|i: int| 0 <= i < 32 ==> -8 <= #[trigger] columns@[i] <= 7,
            word == ee[32],
            remainder_scale == word % 16,
            column_scale == (word / 16) % 16,
            row_scale == (word / 256) % 16,
            reference == ee[33],
            alphas@.len() == pixel,
            forall|p: int| 0 <= p < pixel ==> alphas@[p] == #[trigger] alpha_raw_of(ee@, p),
    {
        let remainder = signed_field((ee[64 + pixel] / 16) % 64, 64);
        let row_term = scaled_nibble(rows[pixel / COLUMNS], row_scale);
        let column_term = scaled_nibble(columns[pixel % COLUMNS], column_scale);
        let remainder_term = scaled_remainder(remainder, remainder_scale);
        let value = reference as i64 + row_term + column_term + remainder_term;
        alphas.push(value as i32);
    }
    alphas
}

/// Every pixel's ambient-temperature coefficient before scaling.
pub fn pixel_kta_raw(ee: &[u16; 832]) -> (ktas: Vec<i32>)
    ensures
        ktas@.len() == 768,
        forall|p: int| 0 <= p < 768 ==> ktas@[p] == #[trigger] kta_raw_of(ee@, p),
{
    let base0 = signed_field(ee[54] / 256, 256);
    let base1 = signed_field(ee[55] / 256, 256);
    let base2 = signed_field(ee[54] % 256, 256);
    let base3 = signed_field(ee[55] % 256, 256);
    let scale = scale_factor(ee[56] % 16);
    let mut ktas: Vec<i32> = Vec::new();
    for pixel in 0..PIXEL_COUNT
        invariant
            base0 == kta_base_of(ee@, 0),
            base1 == kta_base_of(ee@, 1),
            base2 == kta_base_of(ee@, 2),
            base3 == kta_base_of(ee@, 3),
            scale == pow2((ee[56] as int % 16) as nat),
            1 <= scale <= 32768,
            ktas@.len() == pixel,
            forall|p: int| 0 <= p < pixel ==> ktas@[p] == #[trigger] kta_raw_of(ee@, p),
    {
        let q = quadrant(pixel);
        let base = if q == 0 {
            base0
        } else if q == 1 {
            base1
        } else if q == 2 {
            base2
        } else {
            base3
        };
        let remainder = signed_field((ee[64 + pixel] / 2) % 8, 8);
        assert(-131072 <= remainder as int * scale <= 114688) by (nonlinear_arith)
            requires
                -4 <= remainder <= 3,
                1 <= scale <= 32768,
        ;
        let value = base as i64 + remainder as i64 * scale;
        ktas.push(value as i32);
    }
    ktas
}

/// Corner temperatures of the four sensitivity ranges, in degrees Celsius:
/// the outer ones are fixed at -40, 0 and 400; the two middle ones are
/// multiples of a step of 10 times bits 13:12 of word 63, by the nibbles in
/// bits 7:4 and 11:8.
pub fn corner_temperatures(ee: &[u16; 832]) -> (ct: [i16; 5])
    ensures
        ({
            let step = ((ee[63] as int / 4096) % 4) * 10;
            let ct2 = ((ee[63] as int / 16) % 16) * step;
            &&& ct[0] == -40
            &&& ct[1] == 0
            &&& ct[2] == ct2
            &&& ct[3] == ct2 + ((ee[63] as int / 256) % 16) * step
            &&& ct[4] == 400
        }),
{
    let word = ee[63];
    let step = ((word / 4096) % 4) as i16 * 10;
    let first = ((word / 16) % 16) as i16;
    let second = ((word / 256) % 16) as i16;
    assert(0 <= first * step <= 450) by (nonlinear_arith)
        requires
            0 <= first <= 15,
            0 <= step <= 30,
    ;
    assert(0 <= second * step <= 450) by (nonlinear_arith)
        requires
            0 <= second <= 15,
            0 <= step <= 30,
    ;
    let ct2 = first * step;
    let ct3 = ct2 + second * step;
    [-40, 0, ct2, ct3, 400]
}

/// Whether a pixel's calibration word flags it: a zero word marks a broken
/// pixel, bit 0 of a nonzero word one outside the specified tolerance.
pub open spec fn flagged(word: u16, broken: bool) -> bool {
    if broken {
        word == 0
    } else {
        word != 0 && word % 2 == 1
    }
}

/// The pixels among the first `count` whose word flags them, in order.
pub open spec fn flagged_pixels(ee: Seq<u16>, count: nat, broken: bool) -> Seq<u16>
    decreases count,
{
    if count == 0 {
        Seq::empty()
    } else {
        let before = flagged_pixels(ee, (count - 1) as nat, broken);
        if flagged(ee[64 + count - 1], broken) {
            before.push((count - 1) as u16)
        } else {
            before
        }
    }
}

/// The pixels the EEPROM flags as unusable.
#[derive(Debug, Clone, PartialEq, Eq)]
pub struct DeviatingPixels {
    /// Dead pixels; their temperatures are meaningless.
    pub broken: Vec<u16>,
    /// Pixels outside the specified tolerance.
    pub outlier: Vec<u16>,
}

impl DeviatingPixels {
    /// Whether a pixel is flagged as broken or as an outlier.
    pub fn is_deviating(&self, pixel: usize) -> (deviating: bool)
        ensures
            deviating == (pixel < 65536 && (self.broken@.contains(pixel as u16)
                || self.outlier@.contains(pixel as u16))),
    {
        if pixel >= 65536 {
            return false;
        }
        let wanted = pixel as u16;
        let mut i: usize = 0;
        while i < self.broken.len()
            invariant
                pixel < 65536,
                wanted == pixel as u16,
                i <= self.broken@.len(),
                forall|j: int| 0 <= j < i ==> self.broken@[j] != wanted,
            decreases self.broken@.len() - i,
        {
            if self.broken[i] == wanted {
                assert(self.broken@[i as int] == wanted);
                return true;
            }
            i = i + 1;
        }
        let mut k: usize = 0;
        while k < self.outlier.len()
            invariant
                pixel < 65536,
                wanted == pixel as u16,
                k <= self.outlier@.len(),
                forall|j: int| 0 <= j < k ==> self.outlier@[j] != wanted,
                !self.broken@.contains(wanted),
            decreases self.outlier@.len() - k,
        {
            if self.outlier[k] == wanted {
                assert(self.outlier@[k as int] == wanted);
                return true;
            }
            k = k + 1;
        }
        false
    }
}

/// Appending one more pixel to the flagged list keeps its first entries.
proof fn lemma_flagged_step(ee: Seq<u16>, count: nat, broken: bool, kept: nat)
    requires
        kept <= flagged_pixels(ee, count, broken).len(),
    ensures
        flagged_pixels(ee, count + 1, broken).len() >= flagged_pixels(ee, count, broken).len(),
        flagged_pixels(ee, count + 1, broken).take(kept as int) =~= flagged_pixels(
            ee,
            count,
            broken,
        ).take(kept as int),
{
}

/// At most how many flagged pixels of one kind are kept.
pub open spec fn kept_count(flagged: nat) -> int {
    if flagged <= 4 {
        flagged as int
    } else {
        4
    }
}

/// Collect the pixels the EEPROM flags: the first four dead and the first
/// four out-of-tolerance pixels, in ascending order. More than four of either
/// kind means the part is faulty, which the second part reports; the lists
/// are kept either way.
pub fn deviating_pixels(ee: &[u16; 832]) -> (result: (DeviatingPixels, Result<(), Error>))
    ensures
        ({
            let broken = flagged_pixels(ee@, 768, true);
            let outlier = flagged_pixels(ee@, 768, false);
            &&& result.0.broken@ == broken.take(kept_count(broken.len()))
            &&& result.0.outlier@ == outlier.take(kept_count(outlier.len()))
            &&& result.1 == if broken.len() > 4 || outlier.len() > 4 {
                Err(Error::TooManyDeviatingPixels((broken.len() + outlier.len()) as usize))
            } else {
                Ok(())
            }
        }),
{
    let mut broken: Vec<u16> = Vec::new();
    let mut outlier: Vec<u16> = Vec::new();
    let mut broken_count: usize = 0;
    let mut outlier_count: usize = 0;
    for pixel in 0..PIXEL_COUNT
        invariant
            broken_count == flagged_pixels(ee@, pixel as nat, true).len(),
            outlier_count == flagged_pixels(ee@, pixel as nat, false).len(),
            broken_count <= pixel,
            outlier_count <= pixel,
            broken@.len() == if broken_count <= 4 {
                broken_count
            } else {
                4
            },
            outlier@.len() == if outlier_count <= 4 {
                outlier_count
            } else {
                4
            },
            broken@ == flagged_pixels(ee@, pixel as nat, true).take(broken@.len() as int),
            outlier@ == flagged_pixels(ee@, pixel as nat, false).take(outlier@.len() as int),
    {
        let word = ee[64 + pixel];
        proof {
            lemma_flagged_step(ee@, pixel as nat, true, broken@.len() as nat);
            lemma_flagged_step(ee@, pixel as nat, false, outlier@.len() as nat);
        }
        let ghost before_broken = flagged_pixels(ee@, pixel as nat, true);
        let ghost before_outlier = flagged_pixels(ee@, pixel as nat, false);
        if word == 0 {
            if broken_count < MAX_DEVIATING_PIXELS {
                broken.push(pixel as u16);
                assert(before_broken.take(broken_count as int) =~= before_broken);
                assert(broken@ =~= flagged_pixels(ee@, (pixel + 1) as nat, true).take(
                    broken@.len() as int,
                ));
            }
            broken_count = broken_count + 1;
        } else if word % 2 == 1 {
            if outlier_count < MAX_DEVIATING_PIXELS {
                outlier.push(pixel as u16);
                assert(before_outlier.take(outlier_count as int) =~= before_outlier);
                assert(outlier@ =~= flagged_pixels(ee@, (pixel + 1) as nat, false).take(
                    outlier@.len() as int,
                ));
            }
            outlier_count = outlier_count + 1;
        }
    }
    let outcome = if broken_count > MAX_DEVIATING_PIXELS || outlier_count > MAX_DEVIATING_PIXELS {
        Err(Error::TooManyDeviatingPixels(broken_count + outlier_count))
    } else {
        Ok(())
    };
    (DeviatingPixels { broken, outlier }, outcome)
}

/// One read-out of the measurement RAM: half the pixels plus the auxiliary
/// words, with the control register and subpage it was taken under.
pub struct Frame {
    ram: [u16; 832],
    control: u16,
    subpage: u8,
}

impl Frame {
    /// The RAM words of this read-out.
    pub closed spec fn spec_ram(&self) -> Seq<u16> {
        self.ram@
    }

    /// Control register 1 when the frame was read.
    pub closed spec fn spec_control(&self) -> u16 {
        self.control
    }

    /// The subpage this read-out refreshed.
    pub closed spec fn spec_subpage(&self) -> u8 {
        self.subpage
    }

    /// An empty frame.
    pub fn new() -> (frame: Self)
        ensures
            frame.spec_ram() == Seq::new(832, |i: int| 0u16),
            frame.spec_control() == 0,
            frame.spec_subpage() == 0,
    {
        let frame = Frame { ram: [0u16; 832], control: 0, subpage: 0 };
        assert(frame.ram@ =~= Seq::new(832, |i: int| 0u16));
        frame
    }

    /// A frame from the RAM block, control register 1 and the status read
    /// after the block; the subpage is bit 0 of the status' subpage field.
    pub fn from_parts(ram: [u16; 832], control: u16, status: &Status) -> (frame: Self)
        ensures
            frame.spec_ram() == ram@,
            frame.spec_control() == control,
            frame.spec_subpage() == status.subpage % 2,
    {
        Frame { ram, control, subpage: status.subpage % 2 }
    }

    /// Which half of the array this read-out refreshed, 0 or 1.
    pub fn subpage(&self) -> (subpage: u8)
        ensures
            subpage == self.spec_subpage(),
    {
        self.subpage
    }

    /// The settings in force when the counts were taken.
    pub fn configuration(&self) -> (configuration: Configuration)
        ensures
            configuration == configuration_of(self.spec_control()),
    {
        Configuration::from_control(self.control)
    }

    /// A raw RAM word as the signed count it holds.
    pub fn raw_pixel(&self, pixel: usize) -> (value: i32)
        requires
            pixel < 832,
        ensures
            value == twos(self.spec_ram()[pixel as int] as int, 65536),
    {
        signed_field(self.ram[pixel], 65536)
    }
}

/// The `(address, word count)` transfers that read `count` words from
/// `start`, none longer than [`MAX_WORDS_PER_TRANSFER`].
pub fn read_chunks(start: u16, count: usize) -> (chunks: Vec<(u16, usize)>)
    requires
        start as int + count <= 65536,
    ensures
        chunks@.len() == (count + 126) / 127,
        forall|i: int|
            0 <= i < chunks@.len() ==> (#[trigger] chunks@[i]).0 == start + 127 * i && chunks@[i].1
                == if count - 127 * i < 127 {
                count - 127 * i
            } else {
                127
            },
{
    let mut chunks: Vec<(u16, usize)> = Vec::new();
    let mut read: usize = 0;
    while read < count
        invariant
            start as int + count <= 65536,
            read <= count,
            read == 127 * chunks@.len() || read == count,
            read < count ==> read == 127 * chunks@.len(),
            chunks@.len() == (read + 126) / 127,
            forall|i: int|
                0 <= i < chunks@.len() ==> (#[trigger] chunks@[i]).0 == start + 127 * i
                    && chunks@[i].1 == if count - 127 * i < 127 {
                    count - 127 * i
                } else {
                    127
                },
        decreases count - read,
    {
        let remaining = count - read;
        let words = if remaining < MAX_WORDS_PER_TRANSFER {
            remaining
        } else {
            MAX_WORDS_PER_TRANSFER
        };
        chunks.push((start + read as u16, words));
        read = read + words;
    }
    chunks
}

/// Big-endian words of a byte block.
pub fn words_from_be_bytes(bytes: &[u8]) -> (words: Vec<u16>)
    ensures
        words@.len() == bytes@.len() / 2,
        forall|i: int|
            0 <= i < words@.len() ==> #[trigger] words@[i] as int == 256 * bytes@[2 * i] as int
                + bytes@[2 * i + 1] as int,
{
    let mut words: Vec<u16> = Vec::new();
    let length = bytes.len();
    let count = length / 2;
    for i in 0..count
        invariant
            length == bytes@.len(),
            count == length / 2,
            words@.len() == i,
            forall|j: int|
                0 <= j < i ==> #[trigger] words@[j] as int == 256 * bytes@[2 * j] as int
                    + bytes@[2 * j + 1] as int,
    {
        assert(i + i + 1 < bytes@.len());
        let at = i + i;
        let high = bytes[at] as u16;
        let low = bytes[at + 1] as u16;
        words.push(256 * high + low);
    }
    words
}

/// Which subpages of the image being assembled have arrived.
#[derive(Debug, Clone, Copy, PartialEq, Eq)]
pub struct ImageAssembly {
    pub seen: [bool; 2],
}

impl ImageAssembly {
    /// Nothing has arrived yet.
    pub fn new() -> (assembly: Self)
        ensures
            !assembly.seen[0] && !assembly.seen[1],
    {
        ImageAssembly { seen: [false, false] }
    }

    /// Record that a subpage arrived.
    pub fn record(&mut self, subpage: u8)
        requires
            subpage < 2,
        ensures
            final(self).seen[subpage as int],
            final(self).seen[1 - subpage] == old(self).seen[1 - subpage],
    {
        self.seen[subpage as usize] = true;
    }

    /// Whether both halves of the image have arrived.
    pub fn complete(&self) -> (complete: bool)
        ensures
            complete == (self.seen[0] && self.seen[1]),
    {
        self.seen[0] && self.seen[1]
    }
}

} // verus!
