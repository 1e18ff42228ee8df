//! The two checksums the firmware uses.
//!
//! * The Sensirion CRC-8 protecting every word the SCD41, SPS30 and SHT41 put
//!   on the wire: polynomial 0x31, initial value 0xFF, no reflection, no
//!   final XOR.
//! * The CRC-32 of Ethernet, PNG and zip, protecting the record kept in flash:
//!   reflected polynomial 0xEDB88320, initial value 0xFFFFFFFF, final
//!   inversion.

use vstd::prelude::*;

verus! {

/// Generator polynomial of the Sensirion CRC-8.
pub const CRC8_POLYNOMIAL: u8 = 0x31;
/// Register value the Sensirion CRC-8 starts from.
pub const CRC8_INIT: u8 = 0xFF;
/// Reversed form of the standard CRC-32 polynomial.
pub const CRC32_POLYNOMIAL: u32 = 0xEDB8_8320;

/// One bit of the MSB-first CRC-8 shift register.
pub open spec fn crc8_shift(crc: u8) -> u8 {
    if crc & 0x80 != 0 {
        ((crc << 1u8) ^ CRC8_POLYNOMIAL) as u8
    } else {
        (crc << 1u8) as u8
    }
}

/// `n` bits of the CRC-8 shift register.
pub open spec fn crc8_shifts(crc: u8, n: nat) -> u8
    decreases n,
{
    if n == 0 {
        crc
    } else {
        crc8_shift(crc8_shifts(crc, (n - 1) as nat))
    }
}

/// The CRC-8 register after `data` has been fed in, starting from 0xFF.
pub open spec fn crc8_register(data: Seq<u8>) -> u8
    decreases data.len(),
{
    if data.len() == 0 {
        CRC8_INIT
    } else {
        crc8_shifts(crc8_register(data.drop_last()) ^ data.last(), 8)
    }
}

/// Compute the Sensirion CRC-8 over a data word.
pub fn crc8(data: &[u8]) -> (crc: u8)
    ensures
        crc == crc8_register(data@),
{
    let mut crc = CRC8_INIT;
    let mut index: usize = 0;
    while index < data.len()
        invariant
            index <= data.len(),
            crc == crc8_register(data@.subrange(0, index as int)),
        decreases data.len() - index,
    {
        let byte = data[index];
        assert(data@.subrange(0, index as int + 1).drop_last() =~= data@.subrange(0, index as int));
        crc = crc ^ byte;
        let ghost start = crc;
        let mut bit: usize = 0;
        while bit < 8
            invariant
                bit <= 8,
                crc == crc8_shifts(start, bit as nat),
            decreases 8 - bit,
        {
            if crc & 0x80 != 0 {
                crc = (crc << 1u8) ^ CRC8_POLYNOMIAL;
            } else {
                crc = crc << 1u8;
            }
            bit = bit + 1;
        }
        index = index + 1;
    }
    assert(data@.subrange(0, data@.len() as int) =~= data@);
    crc
}

/// One bit of the reflected CRC-32 shift register.
pub open spec fn crc32_shift(crc: u32) -> u32 {
    if crc & 1 != 0 {
        (crc >> 1u32) ^ CRC32_POLYNOMIAL
    } else {
        crc >> 1u32
    }
}

/// `n` bits of the CRC-32 shift register.
pub open spec fn crc32_shifts(crc: u32, n: nat) -> u32
    decreases n,
{
    if n == 0 {
        crc
    } else {
        crc32_shift(crc32_shifts(crc, (n - 1) as nat))
    }
}

/// The CRC-32 register after `data` has been fed in, starting from all ones.
pub open spec fn crc32_register(data: Seq<u8>) -> u32
    decreases data.len(),
{
    if data.len() == 0 {
        0xFFFF_FFFFu32
    } else {
        crc32_shifts(crc32_register(data.drop_last()) ^ (data.last() as u32), 8)
    }
}

/// The CRC-32 of `data`: the final register, inverted.
pub open spec fn crc32_spec(data: Seq<u8>) -> u32 {
    !crc32_register(data)
}

/// CRC-32 as used by Ethernet, PNG and zip.
///
/// Computed a bit at a time; this runs over a few hundred bytes a handful of
/// times a day, so a lookup table would cost flash to save time nothing is
/// waiting on.
pub fn crc32(data: &[u8]) -> (crc: u32)
    ensures
        crc == crc32_spec(data@),
{
    let mut crc = 0xFFFF_FFFFu32;
    let mut index: usize = 0;
    while index < data.len()
        invariant
            index <= data.len(),
            crc == crc32_register(data@.subrange(0, index as int)),
        decreases data.len() - index,
    {
        let byte = data[index];
        assert(data@.subrange(0, index as int + 1).drop_last() =~= data@.subrange(0, index as int));
        crc = crc ^ (byte as u32);
        let ghost start = crc;
        let mut bit: usize = 0;
        while bit < 8
            invariant
                bit <= 8,
                crc == crc32_shifts(start, bit as nat),
            decreases 8 - bit,
        {
            let carry = crc & 1;
            crc = crc >> 1u32;
            if carry != 0 {
                crc = crc ^ CRC32_POLYNOMIAL;
            }
            bit = bit + 1;
        }
        index = index + 1;
    }
    assert(data@.subrange(0, data@.len() as int) =~= data@);
    !crc
}

} // verus!
