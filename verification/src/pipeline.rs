//! The coordinator that sequences one session from capture to injection and
//! keeps the session state consistent with what is actually happening.
//!
//! The collaborators that transcribe, rewrite and deliver run outside the
//! library; their results arrive here as plain values.  Each step function
//! advances the state machine before its stage runs, so a concurrent status
//! query always reflects the stage about to run.  A failure mid-processing
//! aborts the remaining stages and resets the state to idle rather than
//! leaving a persistent error state; the caller deletes the waveform file
//! best-effort in every outcome.

use vstd::prelude::*;

use crate::capture::{spec_post_start, spec_stop_reports_no_audio, AudioRecorder};
use crate::commands::ProcessedResult;
use crate::error::AppError;
use crate::state::{AppState, ProcessingStage, RecordingState};

verus! {

/// The contract of a session start over the prior state, the outcome of
/// arming the capture device, and the clock reading: a second start is
/// rejected without mutation, a capture failure is propagated without
/// mutation, and a successful start records when it began.
pub open spec fn spec_begin_contract(
    pre: RecordingState,
    capture_start: Result<(), String>,
    now_ms: u64,
    r: Result<(), AppError>,
    post: RecordingState,
) -> bool {
    &&& (pre is Recording ==> (r matches Err(e) && e matches AppError::InvalidState(m)
        && m@ == "Already recording"@ && post == pre))
    &&& (!(pre is Recording) ==> (capture_start matches Err(m) ==> (r matches Err(e)
        && e matches AppError::AudioRecording(em) && em@ == m@ && post == pre)))
    &&& ((!(pre is Recording) && capture_start is Ok) ==> (r is Ok
        && post == (RecordingState::Recording { started_at: now_ms })))
}

/// Starts a session: rejected while one is recording; otherwise the capture
/// device's outcome decides, and on success the recorder is armed and the
/// state records the start time.
pub fn start_recording(
    state: &mut AppState,
    recorder: &mut AudioRecorder,
    capture_start: Result<(), String>,
    now_ms: u64,
) -> (r: Result<(), AppError>)
    requires
        old(recorder).wf(),
    ensures
        final(recorder).wf(),
        spec_begin_contract(
            old(state).spec_state(),
            capture_start,
            now_ms,
            r,
            final(state).spec_state(),
        ),
        (old(state).spec_state() is Recording || capture_start is Err) ==> (*final(recorder)
            == *old(recorder) && *final(state) == *old(state)),
        (!(old(state).spec_state() is Recording) && capture_start is Ok)
            ==> spec_post_start(*old(recorder), *final(recorder)),
{
    if state.is_recording() {
        return Err(AppError::InvalidState("Already recording".to_owned()));
    }
    match capture_start {
        Err(m) => Err(AppError::AudioRecording(m)),
        Ok(()) => {
            recorder.start_recording();
            state.set_recording_state(RecordingState::Recording { started_at: now_ms });
            Ok(())
        },
    }
}

/// Stops the capture: an empty buffer propagates the no-audio-data error and
/// leaves the state untouched; otherwise the buffer comes back and the state
/// shows transcription as the stage about to run.
pub fn finish_capture(state: &mut AppState, recorder: &mut AudioRecorder) -> (r: Result<
    Vec<i32>,
    AppError,
>)
    requires
        old(recorder).wf(),
    ensures
        final(recorder).wf(),
        !final(recorder).spec_recording(),
        final(recorder).spec_samples() == old(recorder).spec_samples(),
        final(recorder).spec_sample_rate() == old(recorder).spec_sample_rate(),
        final(recorder).spec_channels() == old(recorder).spec_channels(),
        spec_stop_reports_no_audio(*old(recorder)) ==> (r matches Err(e)
            && e matches AppError::AudioRecording(m) && m@ == "No audio data recorded"@
            && *final(state) == *old(state)),
        !spec_stop_reports_no_audio(*old(recorder)) ==> (r matches Ok(buf)
            && buf@ == old(recorder).spec_samples()
            && final(state).spec_state() == (RecordingState::Processing {
                stage: ProcessingStage::Transcribing,
            })),
{
    match recorder.stop_recording() {
        Err(e) => Err(e),
        Ok(buf) => {
            state.set_recording_state(RecordingState::Processing {
                stage: ProcessingStage::Transcribing,
            });
            Ok(buf)
        },
    }
}

/// Takes the transcription collaborator's outcome: success advances the
/// state to the rewrite stage and hands the transcript on; failure resets
/// the state to idle and propagates the error unchanged.
pub fn record_transcription(state: &mut AppState, outcome: Result<String, AppError>) -> (r: Result<
    String,
    AppError,
>)
    ensures
        outcome matches Ok(t) ==> (r matches Ok(t2) && t2 == t
            && final(state).spec_state() == (RecordingState::Processing {
                stage: ProcessingStage::Rewriting,
            })),
        outcome matches Err(e) ==> (r matches Err(e2) && e2 == e
            && final(state).spec_state() is Idle),
{
    match outcome {
        Ok(t) => {
            state.set_recording_state(RecordingState::Processing {
                stage: ProcessingStage::Rewriting,
            });
            Ok(t)
        },
        Err(e) => {
            state.set_recording_state(RecordingState::Idle);
            Err(e)
        },
    }
}

/// Takes the rewrite collaborator's outcome: success advances the state to
/// the injection stage and hands the cleaned text on; failure resets the
/// state to idle and propagates the error unchanged.
pub fn record_rewrite(state: &mut AppState, outcome: Result<String, AppError>) -> (r: Result<
    String,
    AppError,
>)
    ensures
        outcome matches Ok(t) ==> (r matches Ok(t2) && t2 == t
            && final(state).spec_state() == (RecordingState::Processing {
                stage: ProcessingStage::Injecting,
            })),
        outcome matches Err(e) ==> (r matches Err(e2) && e2 == e
            && final(state).spec_state() is Idle),
{
    match outcome {
        Ok(t) => {
            state.set_recording_state(RecordingState::Processing {
                stage: ProcessingStage::Injecting,
            });
            Ok(t)
        },
        Err(e) => {
            state.set_recording_state(RecordingState::Idle);
            Err(e)
        },
    }
}

/// Takes the injection outcome; either way the session is over and the state
/// returns to idle, with the error propagated unchanged on failure.
pub fn record_injection(state: &mut AppState, outcome: Result<(), AppError>) -> (r: Result<
    (),
    AppError,
>)
    ensures
        final(state).spec_state() is Idle,
        outcome is Ok <==> r is Ok,
        outcome matches Err(e) ==> (r matches Err(e2) && e2 == e),
{
    state.set_recording_state(RecordingState::Idle);
    match outcome {
        Ok(()) => Ok(()),
        Err(e) => Err(e),
    }
}

/// Ends a session by running the stop-capture, transcription, rewrite and
/// injection steps in order, stopping at the first failure.  The collaborator
/// outcomes arrive as values; the caller obtains each between the steps and
/// deletes the waveform file best-effort whatever the result.
pub fn stop_recording(
    state: &mut AppState,
    recorder: &mut AudioRecorder,
    transcription_outcome: Result<String, AppError>,
    rewrite_outcome: Result<String, AppError>,
    injection_outcome: Result<(), AppError>,
) -> (r: Result<ProcessedResult, AppError>)
    requires
        old(recorder).wf(),
    ensures
        final(recorder).wf(),
        !final(recorder).spec_recording(),
        spec_stop_reports_no_audio(*old(recorder)) ==> (r matches Err(e)
            && e matches AppError::AudioRecording(m) && m@ == "No audio data recorded"@
            && *final(state) == *old(state)),
        !spec_stop_reports_no_audio(*old(recorder)) ==> ({
            &&& (transcription_outcome matches Err(e) ==> (r matches Err(e2) && e2 == e
                && final(state).spec_state() is Idle))
            &&& (transcription_outcome is Ok ==> (rewrite_outcome matches Err(e)
                ==> (r matches Err(e2) && e2 == e && final(state).spec_state() is Idle)))
            &&& ((transcription_outcome is Ok && rewrite_outcome is Ok)
                ==> (injection_outcome matches Err(e) ==> (r matches Err(e2) && e2 == e
                && final(state).spec_state() is Idle)))
            &&& (transcription_outcome matches Ok(t) ==> (rewrite_outcome matches Ok(c)
                ==> (injection_outcome is Ok ==> (r matches Ok(p) && p.transcription == t
                && p.cleaned_text == c && final(state).spec_state() is Idle))))
        }),
{
    let _samples = match finish_capture(state, recorder) {
        Ok(buf) => buf,
        Err(e) => {
            return Err(e);
        },
    };
    let transcription = match record_transcription(state, transcription_outcome) {
        Ok(t) => t,
        Err(e) => {
            return Err(e);
        },
    };
    let cleaned_text = match record_rewrite(state, rewrite_outcome) {
        Ok(c) => c,
        Err(e) => {
            return Err(e);
        },
    };
    match record_injection(state, injection_outcome) {
        Ok(()) => Ok(ProcessedResult { transcription, cleaned_text }),
        Err(e) => Err(e),
    }
}

/// Cancels a session: a no-op unless one is recording; otherwise the capture
/// stops, its buffer is discarded with errors ignored, the caller deletes
/// the waveform file, and the state returns to idle.
pub fn cancel_recording(state: &mut AppState, recorder: &mut AudioRecorder) -> (r: Result<
    (),
    AppError,
>)
    requires
        old(recorder).wf(),
    ensures
        final(recorder).wf(),
        r is Ok,
        !(old(state).spec_state() is Recording) ==> (*final(state) == *old(state)
            && *final(recorder) == *old(recorder)),
        old(state).spec_state() is Recording ==> (final(state).spec_state() is Idle
            && !final(recorder).spec_recording()
            && final(recorder).spec_samples() == old(recorder).spec_samples()),
{
    if state.is_recording() {
        let _discarded = recorder.stop_recording();
        state.set_recording_state(RecordingState::Idle);
    }
    Ok(())
}

/// Law: of two session starts serialised one after the other, exactly one
/// succeeds; the second observes the already-recording rejection and changes
/// nothing, so no capture data can mix between the attempts.
pub proof fn lemma_begin_session_exclusive(
    s0: RecordingState,
    start1: Result<(), String>,
    start2: Result<(), String>,
    now1: u64,
    now2: u64,
    r1: Result<(), AppError>,
    r2: Result<(), AppError>,
    s1: RecordingState,
    s2: RecordingState,
)
    requires
        !(s0 is Recording),
        start1 is Ok,
        spec_begin_contract(s0, start1, now1, r1, s1),
        spec_begin_contract(s1, start2, now2, r2, s2),
    ensures
        r1 is Ok,
        r2 matches Err(e) && e matches AppError::InvalidState(m) && m@ == "Already recording"@,
        s2 == s1,
{
}

/// Law: when the capture device cannot start, the session start fails with
/// that capture error and the state stays exactly as it was.
pub proof fn lemma_begin_session_capture_failure(
    pre: RecordingState,
    msg: String,
    now_ms: u64,
    r: Result<(), AppError>,
    post: RecordingState,
)
    requires
        !(pre is Recording),
        spec_begin_contract(pre, Err(msg), now_ms, r, post),
    ensures
        r matches Err(e) && e matches AppError::AudioRecording(m) && m@ == msg@,
        post == pre,
{
}

} // verus!
