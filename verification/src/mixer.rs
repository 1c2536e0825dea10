//! Sample mixing arithmetic.  Samples are unsigned 16-bit values biased at
//! mid-scale: `0x8000` is silence.  Mixing interprets them centered at zero,
//! sums the music and effect contributions, clamps to the signed 16-bit
//! range, and re-biases.

use vstd::prelude::*;

verus! {

/// The mid-scale silent sample of the streamed and mixed representations.
pub const SILENCE: u16 = 0x8000;

/// The fill value of the sequenced render buffer: both byte lanes at their
/// mid-scale value, so that splitting it yields silence on both channels.
pub const ORG_SILENCE: u16 = 0x8080;

/// A mid-scale-biased sample reinterpreted as centered at zero.
pub open spec fn centered(s: u16) -> int {
    s - 0x8000
}

/// `v` limited to the closed interval `[lo, hi]`.
pub open spec fn clamp_spec(v: int, lo: int, hi: int) -> int {
    if v < lo {
        lo
    } else if v > hi {
        hi
    } else {
        v
    }
}

/// Halving that rounds toward zero, matching machine division.
pub open spec fn half_toward_zero(v: int) -> int {
    if v >= 0 {
        v / 2
    } else {
        -((-v) / 2)
    }
}

/// A centered value in the signed 16-bit range, re-biased to mid-scale.
pub open spec fn rebias(v: int) -> u16
    recommends
        -0x8000 <= v < 0x8000,
{
    (v + 0x8000) as u16
}

/// One mixed output sample: the saturating sum of a music channel sample and
/// the synthesized-effects sample.
pub open spec fn mix_spec(bgm: u16, pxt: u16) -> u16 {
    rebias(clamp_spec(centered(bgm) + centered(pxt), -0x7fff, 0x7fff))
}

/// One mixed mono output sample: both music channels averaged, then summed
/// with the effects sample and saturated.
pub open spec fn mix_mono_spec(left: u16, right: u16, pxt: u16) -> u16 {
    rebias(
        clamp_spec(half_toward_zero(centered(left) + centered(right)) + centered(pxt), -0x7fff, 0x7fff),
    )
}

/// The stereo pair a sequenced buffer entry expands to: the low byte lane
/// becomes the left channel's high byte, the high byte lane the right
/// channel.
pub open spec fn org_frame_spec(sample: u16) -> (u16, u16) {
    ((sample & 0xff) << 8, sample & 0xff00)
}

/// Relies on num_traits::clamp: returns `min` if the input is below `min`,
/// `max` if it is above `max`, and the input itself otherwise.
#[verifier::external_body]
fn clamp_i32(input: i32, min: i32, max: i32) -> (r: i32)
    requires
        min <= max,
    ensures
        r == clamp_spec(input as int, min as int, max as int),
{
    num_traits::clamp(input, min, max)
}

/// Mixes one music channel sample with the effects sample.
pub fn mix_sample(bgm: u16, pxt: u16) -> (r: u16)
    ensures
        r == mix_spec(bgm, pxt),
{
    let sum: i32 = (bgm as i32 - 0x8000) + (pxt as i32 - 0x8000);
    let c = clamp_i32(sum, -0x7fff, 0x7fff);
    (c + 0x8000) as u16
}

/// Mixes the average of both music channels with the effects sample, for
/// mono output hardware.
pub fn mix_mono_sample(left: u16, right: u16, pxt: u16) -> (r: u16)
    ensures
        r == mix_mono_spec(left, right, pxt),
{
    let sum: i32 = (left as i32 - 0x8000) + (right as i32 - 0x8000);
    let avg: i32 = if sum >= 0 {
        ((sum as u32) / 2) as i32
    } else {
        -((((-sum) as u32) / 2) as i32)
    };
    let c = clamp_i32(avg + (pxt as i32 - 0x8000), -0x7fff, 0x7fff);
    (c + 0x8000) as u16
}

/// Splits one sequenced buffer entry into its stereo pair.
pub fn org_frame(sample: u16) -> (r: (u16, u16))
    ensures
        r == org_frame_spec(sample),
{
    ((sample & 0xff) << 8, sample & 0xff00)
}

/// Mixing silence into silence yields silence: the law behind the fixed
/// mid-scale output while nothing plays.
pub proof fn lemma_mix_silence()
    ensures
        mix_spec(SILENCE, SILENCE) == SILENCE,
        forall|pxt: u16| mix_mono_spec(SILENCE, SILENCE, pxt) == mix_spec(SILENCE, pxt),
{
}

} // verus!
