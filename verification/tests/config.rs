use whisperflow::config::{
    AudioConfig, InjectionConfig, InjectionMethod, LLMBackend, Theme, TranscriptionBackend,
    TranscriptionConfig,
};

#[test]
fn mod_test_audio_config_sensible_defaults() {
    let config = AudioConfig::default();

    // Validate sensible audio settings
    assert!(config.sample_rate >= 8000 && config.sample_rate <= 48000);
    assert!(config.channels == 1 || config.channels == 2);
    assert!(config.bit_depth == 16 || config.bit_depth == 24);
    assert!(config.max_recording_duration_seconds > 0);
    assert!(config.max_recording_duration_seconds <= 3600);
}

#[test]
fn mod_test_transcription_config_defaults() {
    let config = TranscriptionConfig::default();

    assert!(!config.model.is_empty());
    assert!(config.openai_api_key.is_none());
}

#[test]
fn mod_test_injection_config_defaults() {
    let config = InjectionConfig::default();

    assert!(config.typing_speed_ms > 0);
    assert!(config.typing_speed_ms <= 1000);
}

#[test]
fn test_transcription_backend_values() {
    assert_eq!(TranscriptionBackend::OpenAI as i32, 0);
    assert_eq!(TranscriptionBackend::FasterWhisper as i32, 1);
}

#[test]
fn test_llm_backend_values() {
    assert_eq!(LLMBackend::OpenAI as i32, 0);
    assert_eq!(LLMBackend::Ollama as i32, 1);
    assert_eq!(LLMBackend::Disabled as i32, 2);
}

#[test]
fn test_injection_method_values() {
    let clipboard = InjectionMethod::Clipboard;
    let typing = InjectionMethod::Typing;
    let hybrid = InjectionMethod::Hybrid;

    // Test that all methods are distinct
    assert_ne!(format!("{:?}", clipboard), format!("{:?}", typing));
    assert_ne!(format!("{:?}", clipboard), format!("{:?}", hybrid));
    assert_ne!(format!("{:?}", typing), format!("{:?}", hybrid));
}

#[test]
fn test_theme_values() {
    let light = Theme::Light;
    let dark = Theme::Dark;
    let system = Theme::System;

    assert_ne!(format!("{:?}", light), format!("{:?}", dark));
    assert_ne!(format!("{:?}", light), format!("{:?}", system));
    assert_ne!(format!("{:?}", dark), format!("{:?}", system));
}

#[test]
fn config_test_test_audio_config_sensible_defaults() {
    let config = AudioConfig::default();

    // Validate sensible audio settings
    assert!(config.sample_rate >= 8000 && config.sample_rate <= 48000);
    assert!(config.channels == 1 || config.channels == 2);
    assert!(config.bit_depth == 16 || config.bit_depth == 24);
    assert!(config.max_recording_duration_seconds > 0);
    assert!(config.max_recording_duration_seconds <= 3600);
}

#[test]
fn config_test_test_transcription_config_defaults() {
    let config = TranscriptionConfig::default();

    assert!(!config.model.is_empty());
    assert!(config.openai_api_key.is_none());
    assert!(config.language.is_none() || config.language == Some("en".to_string()));
}

#[test]
fn config_test_test_injection_config_defaults() {
    let config = InjectionConfig::default();

    assert!(config.typing_speed_ms > 0);
    assert!(config.typing_speed_ms <= 1000);
}

#[test]
fn test_default_hotkeys() {
    let hk = whisperflow::config::HotkeyConfig::default();
    assert_eq!(hk.toggle_recording, "Ctrl+Shift+Space");
    assert_eq!(hk.cancel_recording, "Escape");
}

#[test]
fn test_default_ui_config() {
    let ui = whisperflow::config::UIConfig::default();
    assert!(matches!(ui.theme, Theme::System));
    assert!(ui.show_notifications);
    assert!(ui.minimize_to_tray);
}

#[test]
fn test_default_audio_device() {
    let audio = AudioConfig::default();
    assert_eq!(audio.sample_rate, 16000);
    assert_eq!(audio.device_id, "default");
    assert!(audio.vad_enabled);
}
