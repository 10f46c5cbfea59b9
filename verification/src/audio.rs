//! Turning microphone samples into the 16-bit samples of the WAV file.

use vstd::prelude::*;

verus! {

/// Bits per sample of the recorded WAV file.
pub const WAV_BITS_PER_SAMPLE: u16 = 16;

/// An unsigned 8-bit sample (silence at 128) as a signed 16-bit one:
/// centred on zero and scaled by 256.
pub open spec fn widened_u8_sample(s: u8) -> int {
    (s as int - 128) * 256
}

/// The 16-bit sample written for an unsigned 8-bit one.
pub fn u8_sample_to_i16(s: u8) -> (r: i16)
    ensures
        r as int == widened_u8_sample(s),
{
    (s as i16 - 128) * 256
}

/// Widening keeps silence silent and louder samples louder, and uses the
/// 16-bit range from its bottom up to 32512.
pub proof fn lemma_widening_preserves_order(a: u8, b: u8)
    ensures
        widened_u8_sample(128) == 0,
        a < b ==> widened_u8_sample(a) < widened_u8_sample(b),
        i16::MIN <= widened_u8_sample(a) <= 32512,
        widened_u8_sample(0) == i16::MIN,
{
}

} // verus!
