//! Waveform file encoding: 16-bit little-endian PCM with the standard
//! 44-byte header.  The encoder is a pure function from samples to bytes;
//! writing the bytes to disk happens outside the library.

use vstd::prelude::*;

verus! {

/// The two little-endian bytes of a 16-bit value.
pub open spec fn spec_le16(x: int) -> Seq<u8>
    recommends
        0 <= x < 65536,
{
    seq![(x % 256) as u8, (x / 256) as u8]
}

/// The four little-endian bytes of a 32-bit value.
pub open spec fn spec_le32(x: int) -> Seq<u8>
    recommends
        0 <= x < 0x1_0000_0000,
{
    seq![
        (x % 256) as u8,
        (x / 256 % 256) as u8,
        (x / 65536 % 256) as u8,
        (x / 16777216 % 256) as u8,
    ]
}

/// The two little-endian bytes of a 16-bit PCM sample, two's complement.
pub open spec fn spec_pcm16_le(p: int) -> Seq<u8>
    recommends
        -32768 <= p <= 32767,
{
    spec_le16(if p < 0 { p + 65536 } else { p })
}

/// The sample data section: each sample as two little-endian bytes, in order.
pub open spec fn spec_pcm_data(samples: Seq<i16>) -> Seq<u8>
    decreases samples.len(),
{
    if samples.len() == 0 {
        Seq::empty()
    } else {
        spec_pcm_data(samples.drop_last()) + spec_pcm16_le(samples.last() as int)
    }
}

/// The 44-byte header of a 16-bit PCM waveform file holding `data_len` bytes
/// of sample data at `rate` frames per second over `channels` channels.
pub open spec fn spec_wav_header(data_len: int, rate: int, channels: int) -> Seq<u8> {
    seq![82u8, 73u8, 70u8, 70u8]  // "RIFF"
        + spec_le32(36 + data_len)
        + seq![87u8, 65u8, 86u8, 69u8]  // "WAVE"
        + seq![102u8, 109u8, 116u8, 32u8]  // "fmt "
        + spec_le32(16)  // format chunk length
        + spec_le16(1)  // integer PCM
        + spec_le16(channels)
        + spec_le32(rate)
        + spec_le32(rate * channels * 2)  // bytes per second
        + spec_le16(channels * 2)  // frame size in bytes
        + spec_le16(16)  // bits per sample
        + seq![100u8, 97u8, 116u8, 97u8]  // "data"
        + spec_le32(data_len)
}

/// The whole waveform file for the given samples.
pub open spec fn spec_wav_bytes(samples: Seq<i16>, rate: int, channels: int) -> Seq<u8> {
    spec_wav_header(2 * samples.len() as int, rate, channels) + spec_pcm_data(samples)
}

/// How many PCM samples a waveform file of this shape holds.
pub open spec fn spec_wav_sample_count(b: Seq<u8>) -> int {
    (b.len() - 44) / 2
}

/// The sample rate recorded in a waveform header.
pub open spec fn spec_wav_header_rate(b: Seq<u8>) -> int
    recommends
        b.len() >= 28,
{
    b[24] + 256 * b[25] + 65536 * b[26] + 16777216 * b[27]
}

/// The sample data of an encoding is twice as long as the sample sequence.
pub proof fn lemma_pcm_data_len(samples: Seq<i16>)
    ensures
        spec_pcm_data(samples).len() == 2 * samples.len(),
    decreases samples.len(),
{
    if samples.len() > 0 {
        lemma_pcm_data_len(samples.drop_last());
    }
}

fn push_le16(out: &mut Vec<u8>, x: u16)
    ensures
        final(out)@ == old(out)@ + spec_le16(x as int),
{
    out.push((x % 256) as u8);
    out.push((x / 256) as u8);
    proof {
        assert(final(out)@ =~= old(out)@ + spec_le16(x as int));
    }
}

fn push_le32(out: &mut Vec<u8>, x: u32)
    ensures
        final(out)@ == old(out)@ + spec_le32(x as int),
{
    out.push((x % 256) as u8);
    out.push((x / 256 % 256) as u8);
    out.push((x / 65536 % 256) as u8);
    out.push((x / 16777216 % 256) as u8);
    proof {
        assert(final(out)@ =~= old(out)@ + spec_le32(x as int));
    }
}

fn push_pcm16(out: &mut Vec<u8>, p: i16)
    ensures
        final(out)@ == old(out)@ + spec_pcm16_le(p as int),
{
    let w: i32 = if p < 0 {
        (p as i32) + 65536
    } else {
        p as i32
    };
    out.push((w % 256) as u8);
    out.push((w / 256) as u8);
    proof {
        assert(final(out)@ =~= old(out)@ + spec_pcm16_le(p as int));
    }
}

/// Encodes the samples as a 16-bit PCM waveform file.
pub fn encode_wav_pcm16(samples: &Vec<i16>, sample_rate: u32, channels: u16) -> (r: Vec<u8>)
    requires
        channels == 1 || channels == 2,
        sample_rate <= 192000,
        samples@.len() <= 0x3fff_ffff,
    ensures
        r@ == spec_wav_bytes(samples@, sample_rate as int, channels as int),
{
    let mut out: Vec<u8> = Vec::new();
    let data_len: u32 = 2 * (samples.len() as u32);
    out.push(82);
    out.push(73);
    out.push(70);
    out.push(70);
    push_le32(&mut out, 36 + data_len);
    out.push(87);
    out.push(65);
    out.push(86);
    out.push(69);
    out.push(102);
    out.push(109);
    out.push(116);
    out.push(32);
    push_le32(&mut out, 16);
    push_le16(&mut out, 1);
    push_le16(&mut out, channels);
    push_le32(&mut out, sample_rate);
    push_le32(&mut out, sample_rate * (channels as u32) * 2);
    push_le16(&mut out, channels * 2);
    push_le16(&mut out, 16);
    out.push(100);
    out.push(97);
    out.push(116);
    out.push(97);
    push_le32(&mut out, data_len);
    proof {
        assert(out@ =~= spec_wav_header(2 * samples@.len() as int, sample_rate as int, channels as int));
    }
    let ghost header = out@;
    let mut i: usize = 0;
    while i < samples.len()
        invariant
            0 <= i <= samples@.len(),
            out@ == header + spec_pcm_data(samples@.take(i as int)),
        decreases samples@.len() - i,
    {
        push_pcm16(&mut out, samples[i]);
        proof {
            assert(samples@.take(i + 1 as int).drop_last() =~= samples@.take(i as int));
            assert(samples@.take(i + 1 as int).last() == samples@[i as int]);
            assert(out@ =~= header + spec_pcm_data(samples@.take(i + 1 as int)));
        }
        i += 1;
    }
    proof {
        assert(samples@.take(samples@.len() as int) =~= samples@);
    }
    out
}

/// Law: a capture of `n` samples encodes to a waveform file holding exactly
/// `n` PCM samples, and the header carries the capture's sample rate.
pub proof fn lemma_wav_preserves_count_and_rate(samples: Seq<i16>, rate: int, channels: int)
    requires
        0 <= rate < 0x1_0000_0000,
    ensures
        spec_wav_sample_count(spec_wav_bytes(samples, rate, channels)) == samples.len(),
        spec_wav_header_rate(spec_wav_bytes(samples, rate, channels)) == rate,
{
    let b = spec_wav_bytes(samples, rate, channels);
    let h = spec_wav_header(2 * samples.len() as int, rate, channels);
    lemma_pcm_data_len(samples);
    assert(h.len() == 44);
    assert(b.len() == 44 + 2 * samples.len());
    assert(b[24] == rate % 256);
    assert(b[25] == rate / 256 % 256);
    assert(b[26] == rate / 65536 % 256);
    assert(b[27] == rate / 16777216 % 256);
    lemma_le32_recompose(rate);
}

/// A 32-bit value is recovered from its four little-endian bytes.
proof fn lemma_le32_recompose(x: int)
    requires
        0 <= x < 0x1_0000_0000,
    ensures
        x % 256 + 256 * (x / 256 % 256) + 65536 * (x / 65536 % 256) + 16777216 * (x / 16777216 % 256)
            == x,
{
    vstd::arithmetic::div_mod::lemma_fundamental_div_mod(x, 256);
    vstd::arithmetic::div_mod::lemma_fundamental_div_mod(x / 256, 256);
    vstd::arithmetic::div_mod::lemma_fundamental_div_mod(x / 65536, 256);
    assert(x / 256 / 256 == x / 65536) by {
        vstd::arithmetic::div_mod::lemma_div_denominator(x, 256, 256);
    }
    assert(x / 65536 / 256 == x / 16777216) by {
        vstd::arithmetic::div_mod::lemma_div_denominator(x, 65536, 256);
    }
    assert(x / 16777216 % 256 == x / 16777216) by {
        assert(x / 16777216 < 256) by (nonlinear_arith)
            requires 0 <= x < 0x1_0000_0000;
        assert(x / 16777216 >= 0) by (nonlinear_arith)
            requires x >= 0;
    }
}

} // verus!
