//! Session orchestration core of a voice-to-text utility.
//!
//! The library holds the decision logic of the pipeline: the capture-buffer
//! state machine and sample conversion, waveform encoding, the lifecycle
//! policy for the containerised inference backend, the text-injection
//! fallback policy, the recording-session state machine, and the coordinator
//! that sequences one session from capture to injection.  Everything that
//! touches a device, the network, the clipboard or the file system lives
//! outside the library and hands plain values in and out.

pub mod capture;
pub mod commands;
pub mod config;
pub mod container;
pub mod error;
pub mod hotkeys;
pub mod injection;
pub mod llm;
pub mod pipeline;
pub mod sample;
pub mod state;
pub mod textutil;
pub mod transcription;
pub mod wav;

pub use config::{
    AudioConfig, HotkeyConfig, InjectionConfig, InjectionMethod, LLMBackend, Theme,
    TranscriptionBackend, TranscriptionConfig, UIConfig,
};
pub use error::AppError;
pub use state::{AppState, ProcessingStage, RecordingState};
