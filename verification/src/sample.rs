//! Normalized audio amplitudes as fixed-point integers.
//!
//! A normalized amplitude in the real interval [-1, 1] is held as an `i32`
//! numerator over the fixed denominator [`SAMPLE_ONE`] = 32767 * 65535.
//! That denominator makes all three device encodings exact:
//! a signed 16-bit sample `s` (worth `s / 32767`) becomes `s * 65535`, and an
//! unsigned 16-bit sample `u` (worth `(u / 65535) * 2 - 1`) becomes
//! `(2 * u - 65535) * 32767`.  Writing a sample out as 16-bit PCM (worth
//! `p / 32767`) is division by 65535, truncated towards zero.

use vstd::prelude::*;

verus! {

/// Full positive scale: the fixed-point image of the amplitude +1.
pub const SAMPLE_ONE: i32 = 32767 * 65535;

/// The lowest representable amplitude: the image of the signed 16-bit sample
/// -32768, one conversion step below the amplitude -1.
pub const SAMPLE_FLOOR: i32 = -32768 * 65535;

/// A fixed-point value stands for a normalized amplitude.
pub open spec fn sample_in_range(v: int) -> bool {
    SAMPLE_FLOOR <= v <= SAMPLE_ONE
}

/// The fixed-point image of a signed 16-bit sample.
pub open spec fn spec_sample_of_i16(s: i16) -> int {
    s * 65535
}

/// The fixed-point image of an unsigned 16-bit sample.
pub open spec fn spec_sample_of_u16(s: u16) -> int {
    (2 * s - 65535) * 32767
}

/// The 16-bit PCM value of a fixed-point amplitude: division by 65535
/// truncated towards zero, as the lossy `amplitude * 32767` write-out.
pub open spec fn spec_pcm16_of(v: int) -> int {
    if v >= 0 {
        v / 65535
    } else {
        -((-v) / 65535)
    }
}

/// Converts a signed 16-bit device sample to fixed point; exact.
pub fn sample_from_i16(s: i16) -> (r: i32)
    ensures
        r == spec_sample_of_i16(s),
        sample_in_range(r as int),
{
    (s as i32) * 65535
}

/// Converts an unsigned 16-bit device sample to fixed point; exact.
pub fn sample_from_u16(s: u16) -> (r: i32)
    ensures
        r == spec_sample_of_u16(s),
        sample_in_range(r as int),
{
    (2 * (s as i32) - 65535) * 32767
}

/// Converts a fixed-point amplitude to its 16-bit PCM value.
pub fn sample_to_pcm16(v: i32) -> (p: i16)
    requires
        sample_in_range(v as int),
    ensures
        p as int == spec_pcm16_of(v as int),
{
    if v >= 0 {
        let q: u32 = (v as u32) / 65535;
        proof {
            assert(v as int / 65535 <= 32767) by (nonlinear_arith)
                requires 0 <= v <= 32767 * 65535;
        }
        q as i16
    } else {
        let m: u32 = (-v) as u32;
        let q: u32 = m / 65535;
        proof {
            assert((-v) as int / 65535 <= 32768) by (nonlinear_arith)
                requires -32768 * 65535 <= v < 0;
        }
        (-(q as i32)) as i16
    }
}

/// The fixed-point amplitude a 16-bit PCM value is read back as; exact.
pub fn pcm16_to_sample(p: i16) -> (r: i32)
    ensures
        r == spec_sample_of_i16(p),
        sample_in_range(r as int),
{
    (p as i32) * 65535
}

/// Law: converting an amplitude to 16-bit PCM and reading it back moves it by
/// less than 65535 fixed-point units, which is 1/32767 of full scale; the
/// round trip never leaves the valid range.
pub proof fn lemma_pcm16_round_trip_error(v: int)
    requires
        sample_in_range(v),
    ensures
        -65535 < v - spec_sample_of_i16(spec_pcm16_of(v) as i16) < 65535,
        32767 * abs(v - spec_sample_of_i16(spec_pcm16_of(v) as i16)) < SAMPLE_ONE,
        sample_in_range(spec_sample_of_i16(spec_pcm16_of(v) as i16)),
{
    if v >= 0 {
        let q = v / 65535;
        vstd::arithmetic::div_mod::lemma_fundamental_div_mod(v, 65535);
        assert(q <= 32767) by (nonlinear_arith)
            requires 0 <= v <= 32767 * 65535 && q == v / 65535;
        assert(q * 65535 <= v < q * 65535 + 65535);
        assert(spec_pcm16_of(v) == q);
        assert(spec_sample_of_i16(q as i16) == q * 65535);
    } else {
        let w = -v;
        let q = w / 65535;
        vstd::arithmetic::div_mod::lemma_fundamental_div_mod(w, 65535);
        assert(q <= 32768) by (nonlinear_arith)
            requires 0 < w <= 32768 * 65535 && q == w / 65535;
        assert(q * 65535 <= w < q * 65535 + 65535);
        assert(spec_pcm16_of(v) == -q);
        assert(spec_sample_of_i16((-q) as i16) == -q * 65535);
    }
}

/// The magnitude of an integer.
pub open spec fn abs(v: int) -> int {
    if v >= 0 {
        v
    } else {
        -v
    }
}

} // verus!
