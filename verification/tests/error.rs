use whisperflow::error::AppError;

#[test]
fn test_audio_error_message() {
    let error = AppError::AudioRecording("device not found".to_string());
    let message = error.user_message();

    assert!(message.contains("Failed to record audio"));
    assert!(message.contains("Device not found"));
    assert!(message.contains("microphone permissions"));
}

#[test]
fn test_network_error_message() {
    let error = AppError::Network("Unauthorized".to_string());
    let message = error.user_message();

    assert!(message.contains("Network error") || message.contains("Cannot connect"));
}

#[test]
fn test_docker_error_message() {
    let error = AppError::Docker("container not running".to_string());
    let message = error.user_message();

    assert!(message.contains("Docker error"));
    assert!(message.contains("Container not running"));
    assert!(message.contains("Docker Desktop"));
}

#[test]
fn test_backend_unavailable_message() {
    let error = AppError::BackendUnavailable("faster-whisper not configured".to_string());
    let message = error.user_message();

    assert!(message.contains("Backend not available"));
    assert!(message.contains("configure it in settings"));
}

#[test]
fn test_error_category() {
    assert_eq!(
        AppError::AudioRecording("test".to_string()).category(),
        "audio"
    );
    assert_eq!(
        AppError::Transcription("test".to_string()).category(),
        "transcription"
    );
    assert_eq!(AppError::LLMProcessing("test".to_string()).category(), "llm");
    assert_eq!(AppError::Docker("test".to_string()).category(), "docker");
}

#[test]
fn test_recoverable_errors() {
    assert!(AppError::Network("Server error".to_string()).is_recoverable());
    assert!(AppError::BackendUnavailable("test".to_string()).is_recoverable());
    assert!(AppError::Docker("test".to_string()).is_recoverable());
    assert!(AppError::Config("test".to_string()).is_recoverable());
}

#[test]
fn test_non_recoverable_errors() {
    assert!(!AppError::AudioRecording("test".to_string()).is_recoverable());
    assert!(!AppError::Json("test".to_string()).is_recoverable());
    assert!(!AppError::Unknown("test".to_string()).is_recoverable());
}

#[test]
fn test_clean_message() {
    let error = AppError::Config("test".to_string());

    // Test prefix removal
    assert_eq!(error.clean_message("error: something failed"), "Something failed");
    assert_eq!(error.clean_message("Error: something failed"), "Something failed");
    assert_eq!(error.clean_message("failed to connect"), "Connect");
    assert_eq!(error.clean_message("Failed to connect"), "Connect");

    // Test capitalization
    assert_eq!(error.clean_message("test message"), "Test message");
}

#[test]
fn test_error_to_string_conversion() {
    let error = AppError::Config("test error".to_string());
    let string: String = error.into();

    assert!(string.contains("Configuration error"));
    assert!(string.contains("Test error"));
}

#[test]
fn test_clean_message_repeated_prefix() {
    let error = AppError::Config("test".to_string());
    assert_eq!(
        error.clean_message("error: error: broken pipe"),
        "Broken pipe"
    );
    assert_eq!(error.clean_message(""), "");
    assert_eq!(error.clean_message("Already recording"), "Already recording");
}

#[test]
fn test_more_error_messages() {
    let m = AppError::Transcription("timeout".to_string()).user_message();
    assert!(m.contains("Transcription failed: Timeout"));

    let m = AppError::LLMProcessing("bad key".to_string()).user_message();
    assert!(m.contains("Text processing failed: Bad key"));

    let m = AppError::TextInjection("no display".to_string()).user_message();
    assert!(m.contains("Failed to insert text: No display"));

    let m = AppError::InvalidState("Already recording".to_string()).user_message();
    assert_eq!(m, "Invalid state: Already recording. Please try again.");

    let m = AppError::NotFound("model x".to_string()).user_message();
    assert_eq!(m, "Not found: Model x");

    let m = AppError::Io("permission denied".to_string()).user_message();
    assert_eq!(
        m,
        "File system error: permission denied. Check file permissions and disk space."
    );

    let m = AppError::Json("trailing comma".to_string()).user_message();
    assert_eq!(
        m,
        "Data format error: trailing comma. The configuration may be corrupted."
    );

    let m = AppError::Unknown("oops".to_string()).user_message();
    assert!(m.contains("Unexpected error: Oops"));
}

#[test]
fn test_all_categories() {
    assert_eq!(AppError::TextInjection("x".to_string()).category(), "injection");
    assert_eq!(AppError::Config("x".to_string()).category(), "config");
    assert_eq!(AppError::Io("x".to_string()).category(), "io");
    assert_eq!(AppError::Network("x".to_string()).category(), "network");
    assert_eq!(AppError::Json("x".to_string()).category(), "json");
    assert_eq!(AppError::InvalidState("x".to_string()).category(), "state");
    assert_eq!(AppError::NotFound("x".to_string()).category(), "not_found");
    assert_eq!(
        AppError::BackendUnavailable("x".to_string()).category(),
        "backend"
    );
    assert_eq!(AppError::Unknown("x".to_string()).category(), "unknown");
}
