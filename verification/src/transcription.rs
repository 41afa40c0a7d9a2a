//! The transcription service: which backend a configuration selects, what
//! that selection requires, and the availability gate in front of a
//! transcription call.
//!
//! The backends' HTTP calls live outside the library; the service fixes the
//! selection rules, each backend's display name, and what the caller
//! receives for every combination of availability and outcome.

use vstd::prelude::*;

use crate::config::TranscriptionBackend;
use crate::error::AppError;

verus! {

/// The display name of a transcription backend.
pub open spec fn spec_backend_name(backend: TranscriptionBackend) -> Seq<char> {
    match backend {
        TranscriptionBackend::OpenAI => "OpenAI Whisper"@,
        TranscriptionBackend::FasterWhisper => "faster-whisper (Docker)"@,
    }
}

/// The transcription service for one selected backend.
pub struct TranscriptionService {
    backend: TranscriptionBackend,
}

impl TranscriptionService {
    /// The backend this service calls.
    pub closed spec fn spec_backend(self) -> TranscriptionBackend {
        self.backend
    }

    /// Selects the backend: the cloud backend needs its API key configured,
    /// the containerised one needs the container runtime answering.
    pub fn new(
        backend: TranscriptionBackend,
        openai_api_key: Option<String>,
        docker_available: bool,
    ) -> (r: Result<TranscriptionService, AppError>)
        ensures
            (backend is OpenAI && openai_api_key is None) ==> (r matches Err(e)
                && e matches AppError::Config(m) && m@ == "OpenAI API key not configured"@),
            (backend is OpenAI && openai_api_key is Some) ==> (r matches Ok(s)
                && s.spec_backend() is OpenAI),
            (backend is FasterWhisper && !docker_available) ==> (r matches Err(e)
                && e matches AppError::Docker(m)
                && m@ == "Docker is not running. Please start Docker and try again."@),
            (backend is FasterWhisper && docker_available) ==> (r matches Ok(s)
                && s.spec_backend() is FasterWhisper),
    {
        match backend {
            TranscriptionBackend::OpenAI => match openai_api_key {
                Option::None => Err(AppError::Config("OpenAI API key not configured".to_owned())),
                Option::Some(_key) => Ok(TranscriptionService {
                    backend: TranscriptionBackend::OpenAI,
                }),
            },
            TranscriptionBackend::FasterWhisper => {
                if !docker_available {
                    Err(AppError::Docker(
                        "Docker is not running. Please start Docker and try again.".to_owned(),
                    ))
                } else {
                    Ok(TranscriptionService { backend: TranscriptionBackend::FasterWhisper })
                }
            },
        }
    }

    /// The display name of the selected backend.
    pub fn backend_name(&self) -> (r: &str)
        ensures
            r@ == spec_backend_name(self.spec_backend()),
    {
        match self.backend {
            TranscriptionBackend::OpenAI => "OpenAI Whisper",
            TranscriptionBackend::FasterWhisper => "faster-whisper (Docker)",
        }
    }

    /// The availability gate: an unavailable backend is reported by name
    /// without a call; otherwise the caller receives the backend's own
    /// outcome, errors included.
    pub fn transcribe(
        &self,
        backend_available: bool,
        backend_outcome: Result<String, AppError>,
    ) -> (r: Result<String, AppError>)
        ensures
            !backend_available ==> (r matches Err(e) && e matches AppError::BackendUnavailable(m)
                && m@ == spec_backend_name(self.spec_backend()) + " is not available"@),
            backend_available ==> r == backend_outcome,
    {
        if !backend_available {
            let mut m = match self.backend {
                TranscriptionBackend::OpenAI => "OpenAI Whisper".to_owned(),
                TranscriptionBackend::FasterWhisper => "faster-whisper (Docker)".to_owned(),
            };
            m.append(" is not available");
            return Err(AppError::BackendUnavailable(m));
        }
        backend_outcome
    }
}

} // verus!
