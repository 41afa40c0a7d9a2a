//! User-facing configuration of the pipeline.
//!
//! Each `Default` impl is written by hand so that its contract pins every
//! field down; the defaults are what a fresh installation runs with.

use vstd::prelude::*;

verus! {

/// Audio capture settings.
#[derive(Debug, Clone)]
pub struct AudioConfig {
    pub sample_rate: u32,
    pub channels: u16,
    pub bit_depth: u16,
    pub device_id: String,
    pub vad_enabled: bool,
    pub max_recording_duration_seconds: u64,
}

impl Default for AudioConfig {
    fn default() -> (c: Self)
        ensures
            c.sample_rate == 16000,
            c.channels == 1,
            c.bit_depth == 16,
            c.device_id@ == "default"@,
            c.vad_enabled,
            c.max_recording_duration_seconds == 300,
    {
        AudioConfig {
            sample_rate: 16000,
            channels: 1,
            bit_depth: 16,
            device_id: "default".to_owned(),
            vad_enabled: true,
            max_recording_duration_seconds: 300,
        }
    }
}

/// Which speech-to-text backend transcribes the captured audio.
#[derive(Debug, Clone, Copy, PartialEq, Eq, Structural)]
pub enum TranscriptionBackend {
    OpenAI,
    FasterWhisper,
}

/// Transcription settings.
#[derive(Debug, Clone)]
pub struct TranscriptionConfig {
    pub backend: TranscriptionBackend,
    pub model: String,
    pub language: Option<String>,
    pub openai_api_key: Option<String>,
}

impl Default for TranscriptionConfig {
    fn default() -> (c: Self)
        ensures
            c.backend is OpenAI,
            c.model@ == "whisper-1"@,
            c.language is None,
            c.openai_api_key is None,
    {
        TranscriptionConfig {
            backend: TranscriptionBackend::OpenAI,
            model: "whisper-1".to_owned(),
            language: None,
            openai_api_key: None,
        }
    }
}

/// Which language-model backend rewrites the transcript.
#[derive(Debug, Clone, Copy, PartialEq, Eq, Structural)]
pub enum LLMBackend {
    OpenAI,
    Ollama,
    Disabled,
}

/// How the rewritten text is delivered to the focused application.
#[derive(Debug, Clone, Copy, PartialEq, Eq, Structural)]
pub enum InjectionMethod {
    Clipboard,
    Typing,
    Hybrid,
}

/// Text injection settings.
#[derive(Debug, Clone, Copy, PartialEq, Eq, Structural)]
pub struct InjectionConfig {
    pub method: InjectionMethod,
    pub typing_speed_ms: u64,
    pub clipboard_backup: bool,
}

impl Default for InjectionConfig {
    fn default() -> (c: Self)
        ensures
            c.method is Hybrid,
            c.typing_speed_ms == 1,
            c.clipboard_backup,
    {
        InjectionConfig {
            method: InjectionMethod::Hybrid,
            typing_speed_ms: 1,
            clipboard_backup: true,
        }
    }
}

/// Global keyboard shortcuts.
#[derive(Debug, Clone)]
pub struct HotkeyConfig {
    pub toggle_recording: String,
    pub cancel_recording: String,
}

impl Default for HotkeyConfig {
    fn default() -> (c: Self)
        ensures
            c.toggle_recording@ == "Ctrl+Shift+Space"@,
            c.cancel_recording@ == "Escape"@,
    {
        HotkeyConfig {
            toggle_recording: "Ctrl+Shift+Space".to_owned(),
            cancel_recording: "Escape".to_owned(),
        }
    }
}

/// Colour theme of the settings window.
#[derive(Debug, Clone, Copy, PartialEq, Eq, Structural)]
pub enum Theme {
    Light,
    Dark,
    System,
}

/// Window behaviour settings.
#[derive(Debug, Clone)]
pub struct UIConfig {
    pub theme: Theme,
    pub show_notifications: bool,
    pub minimize_to_tray: bool,
}

impl Default for UIConfig {
    fn default() -> (c: Self)
        ensures
            c.theme is System,
            c.show_notifications,
            c.minimize_to_tray,
    {
        UIConfig {
            theme: Theme::System,
            show_notifications: true,
            minimize_to_tray: true,
        }
    }
}

} // verus!
