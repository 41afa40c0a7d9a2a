//! The capture buffer state machine.
//!
//! An [`AudioRecorder`] owns an ordered, append-only buffer of normalized
//! fixed-point samples (see [`crate::sample`]) together with the armed flag
//! that the device callback consults.  The microphone stream itself lives
//! outside the library; the stream's callback hands each frame to one of the
//! `append_frame_*` operations, converting the device encoding exactly.

use vstd::prelude::*;

use crate::error::AppError;
use crate::sample::{
    sample_from_i16, sample_from_u16, sample_in_range, sample_to_pcm16, spec_pcm16_of,
    spec_sample_of_i16, spec_sample_of_u16,
};
use crate::wav::{
    encode_wav_pcm16, lemma_wav_preserves_count_and_rate, spec_wav_bytes, spec_wav_header_rate,
    spec_wav_sample_count,
};

verus! {

/// The capture side of one recording session: the sample buffer, the device
/// parameters it was opened with, and the armed flag.
pub struct AudioRecorder {
    buffer: Vec<i32>,
    sample_rate: u32,
    channels: u16,
    recording: bool,
}

/// `post` is `pre` right after a recording start: buffer cleared, armed,
/// device parameters kept.
pub open spec fn spec_post_start(pre: AudioRecorder, post: AudioRecorder) -> bool {
    &&& post.spec_samples() == Seq::<i32>::empty()
    &&& post.spec_recording()
    &&& post.spec_sample_rate() == pre.spec_sample_rate()
    &&& post.spec_channels() == pre.spec_channels()
}

/// Stopping a recorder in this state reports that no audio was captured.
pub open spec fn spec_stop_reports_no_audio(rec: AudioRecorder) -> bool {
    rec.spec_samples().len() == 0
}

impl AudioRecorder {
    /// The accumulated samples, oldest first.
    pub closed spec fn spec_samples(self) -> Seq<i32> {
        self.buffer@
    }

    /// The sample rate of the originating device.
    pub closed spec fn spec_sample_rate(self) -> u32 {
        self.sample_rate
    }

    /// The channel count of the originating device.
    pub closed spec fn spec_channels(self) -> u16 {
        self.channels
    }

    /// Whether the device callback currently appends to the buffer.
    pub closed spec fn spec_recording(self) -> bool {
        self.recording
    }

    /// Well-formed: supported device parameters, every sample normalized,
    /// and a buffer small enough to encode.
    pub closed spec fn wf(self) -> bool {
        &&& self.channels == 1 || self.channels == 2
        &&& 8000 <= self.sample_rate <= 192000
        &&& forall|i: int| 0 <= i < self.buffer@.len() ==> sample_in_range(#[trigger] self.buffer@[i] as int)
        &&& self.buffer@.len() <= 0x3fff_ffff
    }

    /// A recorder for a device with the given parameters, disarmed and empty.
    pub fn new(sample_rate: u32, channels: u16) -> (r: Self)
        requires
            channels == 1 || channels == 2,
            8000 <= sample_rate <= 192000,
        ensures
            r.wf(),
            r.spec_samples() == Seq::<i32>::empty(),
            !r.spec_recording(),
            r.spec_sample_rate() == sample_rate,
            r.spec_channels() == channels,
    {
        AudioRecorder { buffer: Vec::new(), sample_rate, channels, recording: false }
    }

    /// Clears the buffer and arms the callback; the caller then starts the
    /// device stream.
    pub fn start_recording(&mut self)
        requires
            old(self).wf(),
        ensures
            final(self).wf(),
            spec_post_start(*old(self), *final(self)),
    {
        self.buffer.clear();
        self.recording = true;
    }

    /// Appends one frame of already normalized samples; a disarmed recorder
    /// ignores the frame.  Used for devices that deliver float samples, which
    /// the caller converts to fixed point.
    pub fn append_frame_raw(&mut self, frame: &Vec<i32>)
        requires
            old(self).wf(),
            old(self).spec_samples().len() + frame@.len() <= 0x3fff_ffff,
            forall|i: int| 0 <= i < frame@.len() ==> sample_in_range(#[trigger] frame@[i] as int),
        ensures
            final(self).wf(),
            old(self).spec_recording() ==> final(self).spec_samples() == old(self).spec_samples() + frame@,
            !old(self).spec_recording() ==> *final(self) == *old(self),
            final(self).spec_recording() == old(self).spec_recording(),
            final(self).spec_sample_rate() == old(self).spec_sample_rate(),
            final(self).spec_channels() == old(self).spec_channels(),
    {
        if self.recording {
            let mut i: usize = 0;
            while i < frame.len()
                invariant
                    0 <= i <= frame@.len(),
                    self.buffer@ == old(self).spec_samples() + frame@.take(i as int),
                    self.buffer@.len() <= 0x3fff_ffff,
                    old(self).wf(),
                    forall|k: int| 0 <= k < frame@.len() ==> sample_in_range(#[trigger] frame@[k] as int),
                    old(self).spec_samples().len() + frame@.len() <= 0x3fff_ffff,
                    self.sample_rate == old(self).spec_sample_rate(),
                    self.channels == old(self).spec_channels(),
                    self.recording == old(self).spec_recording(),
                decreases frame@.len() - i,
            {
                self.buffer.push(frame[i]);
                proof {
                    assert(self.buffer@ =~= old(self).spec_samples() + frame@.take(i + 1 as int));
                }
                i += 1;
            }
            proof {
                assert(frame@.take(frame@.len() as int) =~= frame@);
                assert(final(self).wf());
            }
        }
    }

    /// Appends one frame of signed 16-bit device samples, converting each by
    /// linear scaling; a disarmed recorder ignores the frame.
    pub fn append_frame_i16(&mut self, frame: &Vec<i16>)
        requires
            old(self).wf(),
            old(self).spec_samples().len() + frame@.len() <= 0x3fff_ffff,
        ensures
            final(self).wf(),
            old(self).spec_recording() ==> final(self).spec_samples() == old(self).spec_samples()
                + frame@.map_values(|s: i16| (spec_sample_of_i16(s)) as i32),
            !old(self).spec_recording() ==> *final(self) == *old(self),
            final(self).spec_recording() == old(self).spec_recording(),
            final(self).spec_sample_rate() == old(self).spec_sample_rate(),
            final(self).spec_channels() == old(self).spec_channels(),
    {
        let ghost target = frame@.map_values(|s: i16| (spec_sample_of_i16(s)) as i32);
        if self.recording {
            let mut i: usize = 0;
            while i < frame.len()
                invariant
                    0 <= i <= frame@.len(),
                    target == frame@.map_values(|s: i16| (spec_sample_of_i16(s)) as i32),
                    self.buffer@ == old(self).spec_samples() + target.take(i as int),
                    self.buffer@.len() <= 0x3fff_ffff,
                    old(self).wf(),
                    old(self).spec_samples().len() + frame@.len() <= 0x3fff_ffff,
                    forall|k: int| 0 <= k < self.buffer@.len() ==> sample_in_range(#[trigger] self.buffer@[k] as int),
                    self.sample_rate == old(self).spec_sample_rate(),
                    self.channels == old(self).spec_channels(),
                    self.recording == old(self).spec_recording(),
                decreases frame@.len() - i,
            {
                let v = sample_from_i16(frame[i]);
                self.buffer.push(v);
                proof {
                    assert(self.buffer@ =~= old(self).spec_samples() + target.take(i + 1 as int));
                }
                i += 1;
            }
            proof {
                assert(target.take(target.len() as int) =~= target);
                assert(final(self).wf());
            }
        }
    }

    /// Appends one frame of unsigned 16-bit device samples, scaling the range
    /// [0, 65535] linearly onto [-1, 1]; a disarmed recorder ignores the frame.
    pub fn append_frame_u16(&mut self, frame: &Vec<u16>)
        requires
            old(self).wf(),
            old(self).spec_samples().len() + frame@.len() <= 0x3fff_ffff,
        ensures
            final(self).wf(),
            old(self).spec_recording() ==> final(self).spec_samples() == old(self).spec_samples()
                + frame@.map_values(|s: u16| (spec_sample_of_u16(s)) as i32),
            !old(self).spec_recording() ==> *final(self) == *old(self),
            final(self).spec_recording() == old(self).spec_recording(),
            final(self).spec_sample_rate() == old(self).spec_sample_rate(),
            final(self).spec_channels() == old(self).spec_channels(),
    {
        let ghost target = frame@.map_values(|s: u16| (spec_sample_of_u16(s)) as i32);
        if self.recording {
            let mut i: usize = 0;
            while i < frame.len()
                invariant
                    0 <= i <= frame@.len(),
                    target == frame@.map_values(|s: u16| (spec_sample_of_u16(s)) as i32),
                    self.buffer@ == old(self).spec_samples() + target.take(i as int),
                    self.buffer@.len() <= 0x3fff_ffff,
                    old(self).wf(),
                    old(self).spec_samples().len() + frame@.len() <= 0x3fff_ffff,
                    forall|k: int| 0 <= k < self.buffer@.len() ==> sample_in_range(#[trigger] self.buffer@[k] as int),
                    self.sample_rate == old(self).spec_sample_rate(),
                    self.channels == old(self).spec_channels(),
                    self.recording == old(self).spec_recording(),
                decreases frame@.len() - i,
            {
                let v = sample_from_u16(frame[i]);
                self.buffer.push(v);
                proof {
                    assert(self.buffer@ =~= old(self).spec_samples() + target.take(i + 1 as int));
                }
                i += 1;
            }
            proof {
                assert(target.take(target.len() as int) =~= target);
                assert(final(self).wf());
            }
        }
    }

    /// Disarms the callback and returns the accumulated buffer; the caller
    /// then releases the device stream.  An empty buffer is the no-audio-data
    /// error.
    pub fn stop_recording(&mut self) -> (r: Result<Vec<i32>, AppError>)
        requires
            old(self).wf(),
        ensures
            final(self).wf(),
            !final(self).spec_recording(),
            final(self).spec_samples() == old(self).spec_samples(),
            final(self).spec_sample_rate() == old(self).spec_sample_rate(),
            final(self).spec_channels() == old(self).spec_channels(),
            spec_stop_reports_no_audio(*old(self)) ==> (r matches Err(e)
                && e matches AppError::AudioRecording(m) && m@ == "No audio data recorded"@),
            !spec_stop_reports_no_audio(*old(self)) ==> (r matches Ok(buf)
                && buf@ == old(self).spec_samples()),
    {
        self.recording = false;
        if self.buffer.len() == 0 {
            return Err(AppError::AudioRecording("No audio data recorded".to_owned()));
        }
        let mut copy: Vec<i32> = Vec::new();
        let mut i: usize = 0;
        while i < self.buffer.len()
            invariant
                0 <= i <= self.buffer@.len(),
                copy@ == self.buffer@.take(i as int),
            decreases self.buffer@.len() - i,
        {
            copy.push(self.buffer[i]);
            proof {
                assert(copy@ =~= self.buffer@.take(i + 1 as int));
            }
            i += 1;
        }
        proof {
            assert(self.buffer@.take(self.buffer@.len() as int) =~= self.buffer@);
        }
        Ok(copy)
    }

    /// Encodes a returned buffer as the waveform file that outlives the
    /// session: 16-bit PCM at the recorder's rate and channel count.
    pub fn save_wav(&self, samples: &Vec<i32>) -> (r: Vec<u8>)
        requires
            self.wf(),
            samples@.len() <= 0x3fff_ffff,
            forall|i: int| 0 <= i < samples@.len() ==> sample_in_range(#[trigger] samples@[i] as int),
        ensures
            r@ == spec_wav_bytes(
                samples@.map_values(|v: i32| (spec_pcm16_of(v as int)) as i16),
                self.spec_sample_rate() as int,
                self.spec_channels() as int,
            ),
    {
        let ghost target = samples@.map_values(|v: i32| (spec_pcm16_of(v as int)) as i16);
        let mut pcm: Vec<i16> = Vec::new();
        let mut i: usize = 0;
        while i < samples.len()
            invariant
                0 <= i <= samples@.len(),
                target == samples@.map_values(|v: i32| (spec_pcm16_of(v as int)) as i16),
                forall|k: int| 0 <= k < samples@.len() ==> sample_in_range(#[trigger] samples@[k] as int),
                pcm@ == target.take(i as int),
            decreases samples@.len() - i,
        {
            let p = sample_to_pcm16(samples[i]);
            pcm.push(p);
            proof {
                assert(pcm@ =~= target.take(i + 1 as int));
            }
            i += 1;
        }
        proof {
            assert(pcm@ =~= target);
        }
        encode_wav_pcm16(&pcm, self.sample_rate, self.channels)
    }
}

/// Law: the waveform file a recorder writes for a capture of `n` samples
/// holds exactly `n` PCM samples, and its header carries the recorder's
/// sample rate.
pub proof fn lemma_waveform_matches_capture(rec: AudioRecorder, samples: Seq<i32>)
    requires
        rec.wf(),
    ensures
        spec_wav_sample_count(
            spec_wav_bytes(
                samples.map_values(|v: i32| (spec_pcm16_of(v as int)) as i16),
                rec.spec_sample_rate() as int,
                rec.spec_channels() as int,
            ),
        ) == samples.len(),
        spec_wav_header_rate(
            spec_wav_bytes(
                samples.map_values(|v: i32| (spec_pcm16_of(v as int)) as i16),
                rec.spec_sample_rate() as int,
                rec.spec_channels() as int,
            ),
        ) == rec.spec_sample_rate(),
{
    let pcm = samples.map_values(|v: i32| (spec_pcm16_of(v as int)) as i16);
    assert(pcm.len() == samples.len());
    lemma_wav_preserves_count_and_rate(
        pcm,
        rec.spec_sample_rate() as int,
        rec.spec_channels() as int,
    );
}

/// Law: a stop that immediately follows a start, with no frames appended in
/// between, reports that no audio was captured.
pub proof fn lemma_stop_after_start_reports_no_audio(pre: AudioRecorder, post: AudioRecorder)
    requires
        spec_post_start(pre, post),
    ensures
        spec_stop_reports_no_audio(post),
{
}

} // verus!
