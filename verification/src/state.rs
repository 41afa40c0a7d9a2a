//! The recording-session state machine: the single source of truth that
//! status queries read and the pipeline advances.
//!
//! The store itself is dumb: `set_recording_state` overwrites without a
//! legality check, and transition policy lives in [`crate::pipeline`].  The
//! lock that serialises concurrent access lives with the caller; the library
//! holds the guarded value.

use vstd::prelude::*;

verus! {

/// The stage a session in processing has reached.
#[derive(Debug, Clone, Copy, PartialEq, Eq, Structural)]
pub enum ProcessingStage {
    Transcribing,
    Rewriting,
    Injecting,
}

/// The state of the recording session.  Exactly one variant holds at any
/// instant.
#[derive(Debug)]
pub enum RecordingState {
    Idle,
    Recording { started_at: u64 },
    Processing { stage: ProcessingStage },
    Error { message: String },
}

/// Two states are the same variant with equal fields; the error message
/// counts by its text.
pub open spec fn spec_state_eq(a: RecordingState, b: RecordingState) -> bool {
    match (a, b) {
        (RecordingState::Idle, RecordingState::Idle) => true,
        (
            RecordingState::Recording { started_at: x },
            RecordingState::Recording { started_at: y },
        ) => x == y,
        (RecordingState::Processing { stage: x }, RecordingState::Processing { stage: y }) => x
            == y,
        (RecordingState::Error { message: x }, RecordingState::Error { message: y }) => x@ == y@,
        _ => false,
    }
}

impl PartialEq for RecordingState {
    /// Two states are equal when they are the same variant with equal fields.
    fn eq(&self, other: &Self) -> (r: bool)
        ensures
            r == spec_state_eq(*self, *other),
    {
        match self {
            RecordingState::Idle => match other {
                RecordingState::Idle => true,
                _ => false,
            },
            RecordingState::Recording { started_at: a } => match other {
                RecordingState::Recording { started_at: b } => *a == *b,
                _ => false,
            },
            RecordingState::Processing { stage: a } => match other {
                RecordingState::Processing { stage: b } => *a == *b,
                _ => false,
            },
            RecordingState::Error { message: a } => match other {
                RecordingState::Error { message: b } => *a == *b,
                _ => false,
            },
        }
    }
}

impl vstd::std_specs::cmp::PartialEqSpecImpl for RecordingState {
    open spec fn obeys_eq_spec() -> bool {
        true
    }

    open spec fn eq_spec(&self, other: &Self) -> bool {
        spec_state_eq(*self, *other)
    }
}

impl Clone for RecordingState {
    /// A clone is the same state.
    fn clone(&self) -> (r: Self)
        ensures
            r == *self,
    {
        match self {
            RecordingState::Idle => RecordingState::Idle,
            RecordingState::Recording { started_at } => RecordingState::Recording {
                started_at: *started_at,
            },
            RecordingState::Processing { stage } => RecordingState::Processing { stage: *stage },
            RecordingState::Error { message } => RecordingState::Error {
                message: message.clone(),
            },
        }
    }
}

/// The session-level application state: the current recording state.  The
/// capture device, the configuration store and their locks live with the
/// caller.
pub struct AppState {
    recording_state: RecordingState,
}

impl AppState {
    /// The current session state.
    pub closed spec fn spec_state(self) -> RecordingState {
        self.recording_state
    }

    /// A fresh session store: idle.
    pub fn new() -> (r: Self)
        ensures
            r.spec_state() is Idle,
    {
        AppState { recording_state: RecordingState::Idle }
    }

    /// The current state, for status queries.
    pub fn get_recording_state(&self) -> (r: RecordingState)
        ensures
            r == self.spec_state(),
    {
        self.recording_state.clone()
    }

    /// Overwrites the state.  No legality check happens here by design;
    /// the pipeline's pre-checks enforce transition policy.
    pub fn set_recording_state(&mut self, state: RecordingState)
        ensures
            final(self).spec_state() == state,
    {
        self.recording_state = state;
    }

    /// Whether a recording is active.
    pub fn is_recording(&self) -> (r: bool)
        ensures
            r == (self.spec_state() is Recording),
    {
        match self.recording_state {
            RecordingState::Recording { .. } => true,
            _ => false,
        }
    }

    /// Whether a stopped recording is being processed.
    pub fn is_processing(&self) -> (r: bool)
        ensures
            r == (self.spec_state() is Processing),
    {
        match self.recording_state {
            RecordingState::Processing { .. } => true,
            _ => false,
        }
    }
}

impl Default for AppState {
    /// The default store is a fresh, idle one.
    fn default() -> (r: Self)
        ensures
            r.spec_state() is Idle,
    {
        AppState::new()
    }
}

} // verus!
