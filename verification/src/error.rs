//! Error taxonomy of the pipeline and its user-facing rendering.
//!
//! Every variant carries the underlying message as plain text.  The
//! user-facing rendering strips common technical prefixes, capitalises the
//! first letter when it is an ASCII lowercase letter, and adds a hint for
//! the affected subsystem.

use vstd::prelude::*;

use crate::textutil::{
    capitalize_first, spec_capitalize, spec_trim_prefix, str_trim_prefix,
};

verus! {

/// One error of the pipeline, tagged by the subsystem that raised it.
#[derive(Debug)]
pub enum AppError {
    AudioRecording(String),
    Transcription(String),
    LLMProcessing(String),
    TextInjection(String),
    Config(String),
    Io(String),
    Network(String),
    Json(String),
    InvalidState(String),
    NotFound(String),
    BackendUnavailable(String),
    Docker(String),
    Unknown(String),
}

/// A message with the technical prefixes stripped and the first letter
/// capitalised.
pub open spec fn spec_clean_message(m: Seq<char>) -> Seq<char> {
    spec_capitalize(
        spec_trim_prefix(
            spec_trim_prefix(
                spec_trim_prefix(spec_trim_prefix(m, "error: "@), "Error: "@),
                "failed to "@,
            ),
            "Failed to "@,
        ),
    )
}

/// The user-facing rendering of an error.
pub open spec fn spec_user_message(e: AppError) -> Seq<char> {
    match e {
        AppError::AudioRecording(m) => "Failed to record audio: "@ + spec_clean_message(m@)
            + ". Please check your microphone permissions and device settings."@,
        AppError::Transcription(m) => "Transcription failed: "@ + spec_clean_message(m@)
            + ". Try using cloud transcription or check Docker status."@,
        AppError::LLMProcessing(m) => "Text processing failed: "@ + spec_clean_message(m@)
            + ". Check your API key or Ollama installation."@,
        AppError::TextInjection(m) => "Failed to insert text: "@ + spec_clean_message(m@)
            + ". Try changing the injection method in settings."@,
        AppError::Config(m) => "Configuration error: "@ + spec_clean_message(m@)
            + ". Please check your settings."@,
        AppError::Io(m) => "File system error: "@ + m@
            + ". Check file permissions and disk space."@,
        AppError::Network(m) => "Network error: "@ + spec_clean_message(m@)
            + ". Check your internet connection or use local mode."@,
        AppError::Json(m) => "Data format error: "@ + m@
            + ". The configuration may be corrupted."@,
        AppError::InvalidState(m) => "Invalid state: "@ + spec_clean_message(m@)
            + ". Please try again."@,
        AppError::NotFound(m) => "Not found: "@ + spec_clean_message(m@),
        AppError::BackendUnavailable(m) => "Backend not available: "@ + spec_clean_message(m@)
            + ". Please configure it in settings."@,
        AppError::Docker(m) => "Docker error: "@ + spec_clean_message(m@)
            + ". Please ensure Docker Desktop is installed and running."@,
        AppError::Unknown(m) => "Unexpected error: "@ + spec_clean_message(m@)
            + ". Please try again or report this issue."@,
    }
}

/// The short category label of an error, for logs.
pub open spec fn spec_category(e: AppError) -> Seq<char> {
    match e {
        AppError::AudioRecording(_) => "audio"@,
        AppError::Transcription(_) => "transcription"@,
        AppError::LLMProcessing(_) => "llm"@,
        AppError::TextInjection(_) => "injection"@,
        AppError::Config(_) => "config"@,
        AppError::Io(_) => "io"@,
        AppError::Network(_) => "network"@,
        AppError::Json(_) => "json"@,
        AppError::InvalidState(_) => "state"@,
        AppError::NotFound(_) => "not_found"@,
        AppError::BackendUnavailable(_) => "backend"@,
        AppError::Docker(_) => "docker"@,
        AppError::Unknown(_) => "unknown"@,
    }
}

/// An error is recoverable when the user can fix its cause from settings or
/// the environment.
pub open spec fn spec_is_recoverable(e: AppError) -> bool {
    ||| e is Network
    ||| e is BackendUnavailable
    ||| e is Docker
    ||| e is Config
    ||| e is InvalidState
}

/// `prefix`, then the cleaned message, then `suffix`.
fn compose_message(prefix: &str, middle: String, suffix: &str) -> (r: String)
    ensures
        r@ == prefix@ + middle@ + suffix@,
{
    let mut r = prefix.to_owned();
    r.append(middle.as_str());
    r.append(suffix);
    r
}

impl AppError {
    /// Strips the technical prefixes `error: `, `Error: `, `failed to ` and
    /// `Failed to ` from a message and capitalises its first letter.
    pub fn clean_message(&self, msg: &str) -> (r: String)
        ensures
            r@ == spec_clean_message(msg@),
    {
        proof {
            reveal_strlit("error: ");
            reveal_strlit("Error: ");
            reveal_strlit("failed to ");
            reveal_strlit("Failed to ");
        }
        let s1 = str_trim_prefix(msg, "error: ");
        let s2 = str_trim_prefix(s1, "Error: ");
        let s3 = str_trim_prefix(s2, "failed to ");
        let s4 = str_trim_prefix(s3, "Failed to ");
        capitalize_first(s4)
    }

    /// The user-facing message for this error.
    pub fn user_message(&self) -> (r: String)
        ensures
            r@ == spec_user_message(*self),
    {
        match self {
            AppError::AudioRecording(m) => compose_message(
                "Failed to record audio: ",
                self.clean_message(m.as_str()),
                ". Please check your microphone permissions and device settings.",
            ),
            AppError::Transcription(m) => compose_message(
                "Transcription failed: ",
                self.clean_message(m.as_str()),
                ". Try using cloud transcription or check Docker status.",
            ),
            AppError::LLMProcessing(m) => compose_message(
                "Text processing failed: ",
                self.clean_message(m.as_str()),
                ". Check your API key or Ollama installation.",
            ),
            AppError::TextInjection(m) => compose_message(
                "Failed to insert text: ",
                self.clean_message(m.as_str()),
                ". Try changing the injection method in settings.",
            ),
            AppError::Config(m) => compose_message(
                "Configuration error: ",
                self.clean_message(m.as_str()),
                ". Please check your settings.",
            ),
            AppError::Io(m) => compose_message(
                "File system error: ",
                m.clone(),
                ". Check file permissions and disk space.",
            ),
            AppError::Network(m) => compose_message(
                "Network error: ",
                self.clean_message(m.as_str()),
                ". Check your internet connection or use local mode.",
            ),
            AppError::Json(m) => compose_message(
                "Data format error: ",
                m.clone(),
                ". The configuration may be corrupted.",
            ),
            AppError::InvalidState(m) => compose_message(
                "Invalid state: ",
                self.clean_message(m.as_str()),
                ". Please try again.",
            ),
            AppError::NotFound(m) => {
                let mut r = "Not found: ".to_owned();
                r.append(self.clean_message(m.as_str()).as_str());
                r
            },
            AppError::BackendUnavailable(m) => compose_message(
                "Backend not available: ",
                self.clean_message(m.as_str()),
                ". Please configure it in settings.",
            ),
            AppError::Docker(m) => compose_message(
                "Docker error: ",
                self.clean_message(m.as_str()),
                ". Please ensure Docker Desktop is installed and running.",
            ),
            AppError::Unknown(m) => compose_message(
                "Unexpected error: ",
                self.clean_message(m.as_str()),
                ". Please try again or report this issue.",
            ),
        }
    }

    /// The short category label for logging.
    pub fn category(&self) -> (r: &str)
        ensures
            r@ == spec_category(*self),
    {
        match self {
            AppError::AudioRecording(_) => "audio",
            AppError::Transcription(_) => "transcription",
            AppError::LLMProcessing(_) => "llm",
            AppError::TextInjection(_) => "injection",
            AppError::Config(_) => "config",
            AppError::Io(_) => "io",
            AppError::Network(_) => "network",
            AppError::Json(_) => "json",
            AppError::InvalidState(_) => "state",
            AppError::NotFound(_) => "not_found",
            AppError::BackendUnavailable(_) => "backend",
            AppError::Docker(_) => "docker",
            AppError::Unknown(_) => "unknown",
        }
    }

    /// Whether the user can fix the cause of this error.
    pub fn is_recoverable(&self) -> (r: bool)
        ensures
            r == spec_is_recoverable(*self),
    {
        match self {
            AppError::Network(_)
            | AppError::BackendUnavailable(_)
            | AppError::Docker(_)
            | AppError::Config(_)
            | AppError::InvalidState(_) => true,
            _ => false,
        }
    }
}

impl vstd::std_specs::convert::FromSpecImpl<AppError> for String {
    open spec fn obeys_from_spec() -> bool {
        false
    }

    open spec fn from_spec(e: AppError) -> String {
        arbitrary()
    }
}

impl From<AppError> for String {
    /// The conversion hands callers the user-facing message.
    fn from(error: AppError) -> (r: String)
        ensures
            r@ == spec_user_message(error),
    {
        error.user_message()
    }
}

} // verus!
