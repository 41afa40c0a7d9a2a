//! The rewrite service: which prompt template a session uses and what the
//! caller receives for every backend situation.
//!
//! The language-model client itself (its HTTP calls, keys and sampling
//! parameters) lives outside the library; the service here fixes the prompt
//! text and the pass-through policy when no backend is configured or the
//! configured one is unreachable.

use vstd::prelude::*;

use crate::config::LLMBackend;
use crate::error::AppError;

verus! {

/// The prompt that only strips fillers, fixes typos and punctuates.
pub open spec fn spec_minimal_prompt() -> Seq<char> {
    "Clean up this voice transcription by:\n1. Removing filler words (um, uh, like, you know)\n2. Fixing obvious typos\n3. Adding basic punctuation\n4. DO NOT change the tone or rephrase sentences\n\nTranscription: "@
}

/// The prompt that turns the transcript into polished business writing.
pub open spec fn spec_professional_prompt() -> Seq<char> {
    "You are a professional writing assistant. Transform this voice transcription into polished, professional business communication.\n\nGuidelines:\n- Remove all filler words and casual language\n- Use formal, professional tone\n- Improve sentence structure and flow\n- Add appropriate business language\n- Maintain clarity and conciseness\n- Preserve factual content exactly\n\nTranscription: "@
}

/// The default prompt: clean up while preserving meaning and tone.
pub open spec fn spec_balanced_prompt() -> Seq<char> {
    "You are a text refinement assistant. Your task is to clean up voice transcriptions while preserving the original meaning and intent.\n\nInstructions:\n- Remove filler words (um, uh, like, you know, so, kind of)\n- Fix grammar and punctuation\n- Improve sentence structure slightly\n- Keep the same level of formality\n- Preserve technical terms and proper nouns exactly\n- DO NOT summarize or significantly rewrite\n\nTranscription: "@
}

/// The prompt a template name selects; unknown names select the balanced one.
pub open spec fn spec_default_prompt(template_name: Seq<char>) -> Seq<char> {
    if template_name == "minimal"@ {
        spec_minimal_prompt()
    } else if template_name == "professional"@ {
        spec_professional_prompt()
    } else {
        spec_balanced_prompt()
    }
}

/// The rewrite service: whether a backend is configured at all, and the
/// prompt its requests carry.
pub struct LLMService {
    has_backend: bool,
    default_prompt: String,
}

impl LLMService {
    /// Whether a rewrite backend is configured.
    pub closed spec fn spec_has_backend(self) -> bool {
        self.has_backend
    }

    /// The prompt sent with every rewrite request.
    pub closed spec fn spec_prompt(self) -> Seq<char> {
        self.default_prompt@
    }

    /// A service for the configured backend kind and template name.  The
    /// client that carries the requests is the caller's to build.
    pub fn new(backend: LLMBackend, default_template: &str) -> (r: Self)
        ensures
            r.spec_has_backend() == !(backend is Disabled),
            r.spec_prompt() == spec_default_prompt(default_template@),
    {
        let has_backend = match backend {
            LLMBackend::Disabled => false,
            LLMBackend::OpenAI => true,
            LLMBackend::Ollama => true,
        };
        LLMService { has_backend, default_prompt: Self::get_default_prompt(default_template) }
    }

    /// The prompt text for a template name: `minimal` and `professional`
    /// select their own prompts, every other name the balanced one.
    pub fn get_default_prompt(template_name: &str) -> (r: String)
        ensures
            r@ == spec_default_prompt(template_name@),
    {
        let name = template_name.to_owned();
        if name == "minimal".to_owned() {
            "Clean up this voice transcription by:\n1. Removing filler words (um, uh, like, you know)\n2. Fixing obvious typos\n3. Adding basic punctuation\n4. DO NOT change the tone or rephrase sentences\n\nTranscription: ".to_owned()
        } else if name == "professional".to_owned() {
            "You are a professional writing assistant. Transform this voice transcription into polished, professional business communication.\n\nGuidelines:\n- Remove all filler words and casual language\n- Use formal, professional tone\n- Improve sentence structure and flow\n- Add appropriate business language\n- Maintain clarity and conciseness\n- Preserve factual content exactly\n\nTranscription: ".to_owned()
        } else {
            "You are a text refinement assistant. Your task is to clean up voice transcriptions while preserving the original meaning and intent.\n\nInstructions:\n- Remove filler words (um, uh, like, you know, so, kind of)\n- Fix grammar and punctuation\n- Improve sentence structure slightly\n- Keep the same level of formality\n- Preserve technical terms and proper nouns exactly\n- DO NOT summarize or significantly rewrite\n\nTranscription: ".to_owned()
        }
    }

    /// What the caller receives for a transcript: the text unchanged when no
    /// backend is configured or the configured one is unavailable, and the
    /// backend's own outcome otherwise, errors included.
    pub fn rewrite_text(
        &self,
        text: &str,
        backend_available: bool,
        backend_outcome: Result<String, AppError>,
    ) -> (r: Result<String, AppError>)
        ensures
            !self.spec_has_backend() ==> (r matches Ok(t) && t@ == text@),
            (self.spec_has_backend() && !backend_available) ==> (r matches Ok(t) && t@ == text@),
            (self.spec_has_backend() && backend_available) ==> r == backend_outcome,
    {
        if !self.has_backend {
            return Ok(text.to_owned());
        }
        if !backend_available {
            return Ok(text.to_owned());
        }
        backend_outcome
    }
}

} // verus!
