//! Helpers shared by the register-mapped sensors.

use vstd::prelude::*;
use vstd::arithmetic::power2::{pow2, lemma_pow2_unfold, lemma_pow2_pos, lemma_pow2_strictly_increases, lemma2_to64};
use vstd::bits::lemma_u64_shl_is_mul;

verus! {

/// The value a register holds after the bits selected by `mask` were
/// replaced by those of `value`.
///
/// Used wherever a register mixes fields owned by different settings, so
/// that changing one does not clear the others.
pub fn masked_update(current: u8, mask: u8, value: u8) -> (updated: u8)
    ensures
        updated == (current & !mask) | (value & mask),
{
    (current & !mask) | (value & mask)
}

/// The 16-bit counterpart of [`masked_update`].
pub fn masked_update_u16(current: u16, mask: u16, value: u16) -> (updated: u16)
    ensures
        updated == (current & !mask) | (value & mask),
{
    (current & !mask) | (value & mask)
}

/// A masked update leaves every bit outside the mask as it was and takes
/// every bit inside it from the new value.
pub proof fn lemma_masked_update(current: u8, mask: u8, value: u8, bit: u8)
    requires
        bit < 8,
    ensures
        ((((current & !mask) | (value & mask)) >> bit) & 1) == if (mask >> bit) & 1 == 1 {
            (value >> bit) & 1
        } else {
            (current >> bit) & 1
        },
{
    assert(((((current & !mask) | (value & mask)) >> bit) & 1) == if (mask >> bit) & 1 == 1 {
        (value >> bit) & 1
    } else {
        (current >> bit) & 1
    }) by (bit_vector)
        requires bit < 8;
}

/// Two's-complement value of the low `bits` bits of `value`: the field
/// taken modulo `2^bits`, less `2^bits` when its top bit is set.
pub open spec fn signed_field(value: int, bits: nat) -> int {
    let field = value % pow2(bits) as int;
    if field >= pow2((bits - 1) as nat) as int {
        field - pow2(bits) as int
    } else {
        field
    }
}

/// Reinterpret the low `bits` bits of `value` as a two's-complement number.
pub fn sign_extend(value: u32, bits: u32) -> (extended: i32)
    requires
        1 <= bits <= 31,
    ensures
        extended == signed_field(value as int, bits as nat),
{
    proof {
        lemma2_to64();
        if bits < 31 {
            lemma_pow2_strictly_increases(bits as nat, 31);
        }
        lemma_pow2_unfold(bits as nat);
        lemma_pow2_pos(bits as nat);
        lemma_u64_shl_is_mul(1, bits as u64);
    }
    let modulus: u64 = 1u64 << (bits as u64);
    let field = (value as u64) % modulus;
    let half = modulus / 2;
    if field >= half {
        (field as i64 - modulus as i64) as i32
    } else {
        field as i32
    }
}

} // verus!
