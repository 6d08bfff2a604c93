//! The low field-of-view threshold.
//!
//! The field-of-view handler distinguishes a low-FOV scene (a cinematic or
//! close-up camera) from a normal scene by whether the requested value is at
//! most 30. The hard threshold is not configurable. Field-of-view values are
//! carried as IEEE-754 single-precision bit patterns, and the comparison is
//! stated on those bits: for non-negative values the bit patterns order
//! exactly as the values they stand for, every negative value lies below the
//! threshold, and a NaN compares false, as the hardware comparison does.

use vstd::prelude::*;

verus! {

/// Bit pattern of the threshold value 30.0 as an IEEE-754 single.
pub const LOW_FOV_THRESHOLD_BITS: u32 = 0x41F0_0000;

/// Whether the bit pattern encodes a NaN: exponent all ones, fraction nonzero.
pub open spec fn f32_bits_is_nan(bits: u32) -> bool {
    (bits >> 23) & 0xFF == 0xFF && bits & 0x7F_FFFF != 0
}

/// Whether the bit pattern has its sign bit set.
pub open spec fn f32_bits_is_negative(bits: u32) -> bool {
    bits >> 31 == 1
}

/// Whether the encoded value is at most 30.0: false for a NaN, true for any
/// negative value (a negative zero included), and decided by the bit order
/// otherwise.
pub open spec fn fov_request_is_low(bits: u32) -> bool {
    if f32_bits_is_nan(bits) {
        false
    } else if f32_bits_is_negative(bits) {
        true
    } else {
        bits <= LOW_FOV_THRESHOLD_BITS
    }
}

/// The threshold is sharp: the bit pattern of 30.0 itself takes the low
/// branch, and the next representable single above it already takes the
/// normal branch.
pub proof fn lemma_low_fov_boundary()
    ensures
        fov_request_is_low(LOW_FOV_THRESHOLD_BITS),
        !fov_request_is_low(0x41F0_0001u32),
{
    assert((0x41F0_0000u32 >> 23) & 0xFF != 0xFF) by (bit_vector);
    assert(0x41F0_0000u32 >> 31 == 0) by (bit_vector);
    assert((0x41F0_0001u32 >> 23) & 0xFF != 0xFF) by (bit_vector);
    assert(0x41F0_0001u32 >> 31 == 0) by (bit_vector);
}

/// Decide the low-FOV branch for a requested field-of-view bit pattern.
pub fn fov_is_low(bits: u32) -> (r: bool)
    ensures
        r == fov_request_is_low(bits),
{
    let exponent = (bits >> 23) & 0xFF;
    let fraction = bits & 0x7F_FFFF;
    if exponent == 0xFF && fraction != 0 {
        false
    } else if bits >> 31 == 1 {
        true
    } else {
        bits <= LOW_FOV_THRESHOLD_BITS
    }
}

} // verus!
