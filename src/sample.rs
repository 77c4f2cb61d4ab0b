//! Sample formats, normalisation onto the common signed 16-bit scale and
//! the 16-bit PCM conversion used by the recordings.

use vstd::prelude::*;

verus! {

/// The value that stands for +1.0 on the common scale.
pub const FULL_SCALE: i64 = 32768;

/// Silence on the common scale.
pub const EQUILIBRIUM: i16 = 0;

/// Silence for unsigned 16-bit hardware samples.
pub const EQUILIBRIUM_U16: u16 = 32768;

/// Silence for unsigned 8-bit hardware samples.
pub const EQUILIBRIUM_U8: u8 = 128;

/// The largest i16, the top of the 16-bit PCM range.
pub const PCM_MAX: i16 = 32767;

/// The smallest i16, the bottom of the 16-bit PCM range.
pub const PCM_MIN: i16 = -32768;

/// `v` clamped into the 16-bit PCM range.
pub open spec fn pcm16_of(v: int) -> int {
    if v > PCM_MAX as int {
        PCM_MAX as int
    } else if v < PCM_MIN as int {
        PCM_MIN as int
    } else {
        v
    }
}

/// An unsigned 8-bit hardware sample on the common scale.
pub open spec fn level_of_u8(s: u8) -> int {
    (s as int - 128) * 256
}

/// An unsigned 16-bit hardware sample on the common scale.
pub open spec fn level_of_u16(s: u16) -> int {
    s as int - 32768
}

/// Relies on dasp_sample::conv::u8::to_i16, which computes `(s as i16 - 128) << 8`.
#[verifier::external_body]
fn u8_to_i16(s: u8) -> (r: i16)
    ensures
        r as int == (s as int - 128) * 256,
{
    dasp_sample::conv::u8::to_i16(s)
}

/// Relies on dasp_sample::conv::u16::to_i16, which moves the unsigned
/// midpoint 32768 to zero.
#[verifier::external_body]
fn u16_to_i16(s: u16) -> (r: i16)
    ensures
        r as int == s as int - 32768,
{
    dasp_sample::conv::u16::to_i16(s)
}

/// Relies on dasp_sample::conv::i16::to_u16, which moves zero to the
/// unsigned midpoint 32768.
#[verifier::external_body]
fn i16_to_u16(s: i16) -> (r: u16)
    ensures
        r as int == s as int + 32768,
{
    dasp_sample::conv::i16::to_u16(s)
}

/// Relies on dasp_sample::conv::i16::to_u8, which keeps the high byte
/// (`s >> 8`, an arithmetic shift) and moves it up by 128.
#[verifier::external_body]
fn i16_to_u8(s: i16) -> (r: u8)
    ensures
        r as int == s as int / 256 + 128,
{
    dasp_sample::conv::i16::to_u8(s)
}

/// An unsigned 8-bit hardware sample on the common scale.
pub fn normalize_u8(s: u8) -> (r: i16)
    ensures
        r as int == level_of_u8(s),
{
    u8_to_i16(s)
}

/// An unsigned 16-bit hardware sample on the common scale.
pub fn normalize_u16(s: u16) -> (r: i16)
    ensures
        r as int == level_of_u16(s),
{
    u16_to_i16(s)
}

/// A common-scale sample as an unsigned 16-bit hardware sample.
pub fn denormalize_u16(v: i16) -> (r: u16)
    ensures
        r as int == v as int + 32768,
{
    i16_to_u16(v)
}

/// A common-scale sample as an unsigned 8-bit hardware sample: the high
/// byte, so values between two 8-bit steps round down (-1 becomes 127, not
/// the midpoint 128).
pub fn denormalize_u8(v: i16) -> (r: u8)
    ensures
        r as int == v as int / 256 + 128,
{
    i16_to_u8(v)
}

/// Scales a common-scale value to 16-bit PCM and clamps it to the range.
/// The common scale is the PCM scale, so scaling is the identity.
pub fn to_pcm16(v: i64) -> (r: i16)
    ensures
        r as int == pcm16_of(v as int),
{
    if v > PCM_MAX as i64 {
        PCM_MAX
    } else if v < PCM_MIN as i64 {
        PCM_MIN
    } else {
        v as i16
    }
}

/// Normalisation sends each format's smallest value to exactly -1.0 and its
/// largest to within one step of that format's resolution below +1.0
/// (256 on the common scale for 8-bit samples, 1 for 16-bit samples).
pub proof fn lemma_normalization_extremes()
    ensures
        level_of_u8(u8::MIN) == -FULL_SCALE,
        level_of_u8(u8::MAX) == FULL_SCALE - 256,
        level_of_u16(u16::MIN) == -FULL_SCALE,
        level_of_u16(u16::MAX) == FULL_SCALE - 1,
        i16::MIN as int == -FULL_SCALE,
        i16::MAX as int == FULL_SCALE - 1,
{
}

/// Writing exactly +1.0 or -1.0 through the 16-bit PCM conversion gives the
/// extreme PCM values.
pub proof fn lemma_pcm_extremes()
    ensures
        pcm16_of(FULL_SCALE as int) == i16::MAX as int,
        pcm16_of(-FULL_SCALE) == i16::MIN as int,
{
}

/// Silence on the common scale becomes each unsigned format's midpoint.
pub proof fn lemma_equilibrium_denormalizes()
    ensures
        EQUILIBRIUM as int + 32768 == EQUILIBRIUM_U16 as int,
        EQUILIBRIUM as int / 256 + 128 == EQUILIBRIUM_U8 as int,
{
}

} // verus!
