//! The Sensirion SPS30 particulate matter sensor: its commands, their
//! framing, and the decoding of its replies.
//!
//! The sensor is used in its continuous measurement mode:
//!
//! 1. `start_measurement` (0x0010) starts the fan and the measurement loop.
//! 2. `is_data_ready` (0x0202) reports when a new result is available (~1/s).
//! 3. `read_measured_values` (0x0300) returns 10 IEEE-754 big-endian floats.

use vstd::prelude::*;
use crate::crc::{crc8, crc8_register};
use crate::sensirion::{chunk_ok, CrcMismatch};

verus! {

/// Fixed 7-bit address of the SPS30.
pub const DEFAULT_ADDRESS: u8 = 0x69;

pub const CMD_START_MEASUREMENT: u16 = 0x0010;
pub const CMD_STOP_MEASUREMENT: u16 = 0x0104;
pub const CMD_READ_DATA_READY_FLAG: u16 = 0x0202;
pub const CMD_READ_MEASURED_VALUES: u16 = 0x0300;
pub const CMD_SLEEP: u16 = 0x1001;
pub const CMD_WAKE_UP: u16 = 0x1103;
pub const CMD_START_FAN_CLEANING: u16 = 0x5607;
pub const CMD_READ_SERIAL_NUMBER: u16 = 0xD033;
pub const CMD_DEVICE_RESET: u16 = 0xD304;

/// Argument selecting big-endian IEEE-754 float output format.
pub const MEASUREMENT_FORMAT_FLOAT: u16 = 0x0300;

/// Execution time of `start_measurement` / `stop_measurement`.
pub const MEASUREMENT_CONTROL_DELAY_MS: u64 = 20;
/// Execution time of `device_reset`.
pub const RESET_DELAY_MS: u64 = 100;
/// Execution time of short read commands.
pub const SHORT_COMMAND_DELAY_MS: u64 = 5;
/// Length of the serial number string, including the terminating NUL.
pub const SERIAL_NUMBER_LEN: usize = 32;
/// Number of values one measurement reports.
pub const MEASURED_VALUE_COUNT: usize = 10;

/// A 16-bit command followed by one CRC-protected argument word.
pub fn command_with_argument(command: u16, argument: u16) -> (frame: [u8; 5])
    ensures
        frame[0] as int == command as int / 256,
        frame[1] as int == command as int % 256,
        frame[2] as int == argument as int / 256,
        frame[3] as int == argument as int % 256,
        frame[4] == crc8_register(seq![frame[2], frame[3]]),
{
    let high = (argument / 256) as u8;
    let low = (argument % 256) as u8;
    let data = [high, low];
    assert(data@ =~= seq![high, low]);
    [(command / 256) as u8, (command % 256) as u8, high, low, crc8(&data)]
}

/// The bytes `data` holds after the first `count` groups of `raw` have had
/// their CRC stripped into it, two data bytes per group.
pub open spec fn stripped(raw: Seq<u8>, data: Seq<u8>, count: int) -> Seq<u8> {
    Seq::new(data.len(), |j: int| if j < 2 * count { raw[3 * (j / 2) + j % 2] } else { data[j] })
}

/// Number of groups `strip_crc` looks at: as many as both buffers hold.
pub open spec fn group_count(raw: Seq<u8>, data: Seq<u8>) -> int {
    if raw.len() / 3 < data.len() / 2 {
        (raw.len() / 3) as int
    } else {
        (data.len() / 2) as int
    }
}

/// Strip the CRC bytes from a raw `word + crc` stream, verifying each one.
///
/// Each 3-byte group of `raw` contributes its two data bytes to `data`, in
/// order, for as many groups as both buffers hold. The first group whose CRC
/// does not match stops the copy there and is reported.
pub fn strip_crc(raw: &[u8], data: &mut [u8]) -> (result: Result<(), CrcMismatch>)
    ensures
        final(data)@.len() == old(data)@.len(),
        match result {
            Ok(()) => (forall|i: int| 0 <= i < group_count(raw@, old(data)@) ==> #[trigger] chunk_ok(raw@, i))
                && final(data)@ == stripped(raw@, old(data)@, group_count(raw@, old(data)@)),
            Err(_) => exists|k: int|
                0 <= k < group_count(raw@, old(data)@) && !chunk_ok(raw@, k) && (forall|i: int|
                    0 <= i < k ==> #[trigger] chunk_ok(raw@, i)) && final(data)@ == stripped(
                    raw@,
                    old(data)@,
                    k,
                ),
        },
{
    let groups = if raw.len() / 3 < data.len() / 2 { raw.len() / 3 } else { data.len() / 2 };
    let ghost original = data@;
    let mut index: usize = 0;
    assert(data@ =~= stripped(raw@, original, 0));
    while index < groups
        invariant
            groups == group_count(raw@, original),
            original == old(data)@,
            index <= groups,
            data@.len() == original.len(),
            data@ == stripped(raw@, original, index as int),
            forall|i: int| 0 <= i < index ==> #[trigger] chunk_ok(raw@, i),
        decreases groups - index,
    {
        assert(3 * index + 2 < raw.len()) by (nonlinear_arith)
            requires index < groups, groups <= raw.len() / 3;
        assert(2 * index + 1 < data.len()) by (nonlinear_arith)
            requires index < groups, groups <= data.len() / 2;
        let start = 3 * index;
        let pair = [raw[start], raw[start + 1]];
        assert(pair@ =~= raw@.subrange(3 * index as int, 3 * index as int + 2));
        if crc8(&pair) != raw[start + 2] {
            assert(!chunk_ok(raw@, index as int));
            return Err(CrcMismatch::Crc);
        }
        data[2 * index] = raw[start];
        data[2 * index + 1] = raw[start + 1];
        proof {
            let next = stripped(raw@, original, index as int + 1);
            assert forall|j: int| 0 <= j < data@.len() implies data@[j] == next[j] by {
                if j == 2 * index || j == 2 * index + 1 {
                    assert(j / 2 == index) by (nonlinear_arith)
                        requires j == 2 * index || j == 2 * index + 1;
                    assert(j % 2 == j - 2 * index) by (nonlinear_arith)
                        requires j == 2 * index || j == 2 * index + 1;
                }
            }
            assert(data@ =~= next);
        }
        index = index + 1;
    }
    Ok(())
}

/// Decode the reply to `read_data_ready_flag`: the sensor sets the low byte
/// of the word to 1 when a new result is waiting.
pub fn data_ready_from_reply(raw: &[u8; 3]) -> (ready: Result<bool, CrcMismatch>)
    ensures
        match ready {
            Ok(ready) => chunk_ok(raw@, 0) && ready == (raw[1] == 1),
            Err(_) => !chunk_ok(raw@, 0),
        },
{
    let mut data = [0u8; 2];
    let result = strip_crc(raw, &mut data);
    match result {
        Ok(()) => {
            assert(data@[1] == raw@[1]);
            Ok(data[1] == 0x01)
        },
        Err(error) => Err(error),
    }
}

/// Position of the first NUL in `bytes`, or its length if there is none.
pub open spec fn nul_position(bytes: Seq<u8>, len: int) -> bool {
    &&& 0 <= len <= bytes.len()
    &&& forall|i: int| 0 <= i < len ==> bytes[i] != 0
    &&& len < bytes.len() ==> bytes[len] == 0
}

/// Decode the reply to `read_serial_number`: 16 words holding a
/// NUL-terminated ASCII string.
///
/// Returns the string's 32 bytes and the number of characters before the
/// first NUL.
pub fn serial_number_from_reply(raw: &[u8; 48]) -> (serial: Result<([u8; 32], usize), CrcMismatch>)
    ensures
        match serial {
            Ok((data, len)) => (forall|i: int| 0 <= i < 16 ==> #[trigger] chunk_ok(raw@, i))
                && data@ == stripped(raw@, Seq::new(32, |j: int| 0u8), 16) && nul_position(
                data@,
                len as int,
            ),
            Err(_) => exists|k: int| 0 <= k < 16 && !chunk_ok(raw@, k),
        },
{
    let mut data = [0u8; 32];
    assert(data@ =~= Seq::new(32, |j: int| 0u8));
    let result = strip_crc(raw, &mut data);
    if result.is_err() {
        return Err(CrcMismatch::Crc);
    }
    assert(group_count(raw@, Seq::new(32, |j: int| 0u8)) == 16);
    let mut len: usize = 0;
    while len < 32 && data[len] != 0
        invariant
            len <= 32,
            forall|i: int| 0 <= i < len ==> data@[i] != 0,
        decreases 32 - len,
    {
        len = len + 1;
    }
    Ok((data, len))
}

/// The big-endian 32-bit pattern held by bytes `4 i .. 4 i + 4` of `data`.
pub open spec fn be_u32(data: Seq<u8>, i: int) -> u32 {
    (data[4 * i] as int * 0x100_0000 + data[4 * i + 1] as int * 0x1_0000 + data[4 * i + 2] as int
        * 0x100 + data[4 * i + 3] as int) as u32
}

/// Decode the reply to `read_measured_values`: 20 words carrying ten
/// big-endian IEEE-754 single-precision values.
///
/// Returned as their bit patterns, in the order PM1.0, PM2.5, PM4.0, PM10
/// mass concentration, PM0.5, PM1.0, PM2.5, PM4.0, PM10 number concentration,
/// and typical particle size.
pub fn measured_values_from_reply(raw: &[u8; 60]) -> (values: Result<[u32; 10], CrcMismatch>)
    ensures
        match values {
            Ok(values) => (forall|i: int| 0 <= i < 20 ==> #[trigger] chunk_ok(raw@, i)) && forall|
                i: int,
            |
                0 <= i < 10 ==> #[trigger] values[i] == be_u32(
                    stripped(raw@, Seq::new(40, |j: int| 0u8), 20),
                    i,
                ),
            Err(_) => exists|k: int| 0 <= k < 20 && !chunk_ok(raw@, k),
        },
{
    let mut data = [0u8; 40];
    assert(data@ =~= Seq::new(40, |j: int| 0u8));
    let result = strip_crc(raw, &mut data);
    if result.is_err() {
        return Err(CrcMismatch::Crc);
    }
    assert(group_count(raw@, Seq::new(40, |j: int| 0u8)) == 20);
    let ghost stripped_data = data@;
    let mut values = [0u32; 10];
    let mut index: usize = 0;
    while index < 10
        invariant
            index <= 10,
            data@ == stripped_data,
            forall|i: int| 0 <= i < index ==> #[trigger] values[i] == be_u32(stripped_data, i),
        decreases 10 - index,
    {
        let base = 4 * index;
        let value = (data[base] as u32) * 0x100_0000 + (data[base + 1] as u32) * 0x1_0000
            + (data[base + 2] as u32) * 0x100 + (data[base + 3] as u32);
        values[index] = value;
        index = index + 1;
    }
    Ok(values)
}

} // verus!
