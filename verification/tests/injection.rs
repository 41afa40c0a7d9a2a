use whisperflow::config::{InjectionConfig, InjectionMethod};
use whisperflow::error::AppError;
use whisperflow::injection::{ClipboardStep, InjectAttempt, TextInjector};

fn injector(method: InjectionMethod) -> TextInjector {
    TextInjector::new(&InjectionConfig {
        method,
        typing_speed_ms: 1,
        clipboard_backup: true,
    })
}

#[test]
fn test_text_injector_creation() {
    let config = InjectionConfig {
        method: InjectionMethod::Clipboard,
        typing_speed_ms: 1,
        clipboard_backup: true,
    };

    let injector = TextInjector::new(&config);
    assert!(matches!(
        injector.first_attempt("hi"),
        InjectAttempt::ViaClipboard(_)
    ));
}

#[test]
fn test_hybrid_falls_back_with_unmodified_text() {
    let injector = injector(InjectionMethod::Hybrid);
    let text = "the full, unmodified original text";

    // Clipboard failed, typing succeeded: the injection reports success.
    let outcome = injector.inject_text(
        Err("clipboard unavailable".to_string()),
        Ok(()),
    );
    assert!(outcome.is_ok());

    // The retry types exactly the original text.
    match injector.fallback_after_clipboard_failure(text) {
        Some(InjectAttempt::ViaTyping(t)) => assert_eq!(t, text),
        _ => panic!("hybrid injection falls back to typing"),
    }
}

#[test]
fn test_hybrid_reports_typing_failure() {
    let injector = injector(InjectionMethod::Hybrid);
    match injector.inject_text(
        Err("clipboard unavailable".to_string()),
        Err("no keyboard".to_string()),
    ) {
        Err(AppError::TextInjection(m)) => assert_eq!(m, "no keyboard"),
        _ => panic!("only the second attempt's result is returned"),
    }
}

#[test]
fn test_clipboard_method_propagates_result() {
    let injector = injector(InjectionMethod::Clipboard);
    assert!(injector.inject_text(Ok(()), Err("unused".to_string())).is_ok());
    match injector.inject_text(Err("denied".to_string()), Ok(())) {
        Err(AppError::TextInjection(m)) => assert_eq!(m, "denied"),
        _ => panic!("the clipboard method does not fall back"),
    }
    assert!(injector.fallback_after_clipboard_failure("x").is_none());
}

#[test]
fn test_typing_method_propagates_result() {
    let injector = injector(InjectionMethod::Typing);
    assert!(matches!(
        injector.first_attempt("abc"),
        InjectAttempt::ViaTyping(_)
    ));
    assert!(injector.inject_text(Err("unused".to_string()), Ok(())).is_ok());
}

#[test]
fn test_typing_steps_cover_every_character() {
    let injector = injector(InjectionMethod::Typing);
    let steps = injector.typing_steps("ab c");
    assert_eq!(steps.len(), 4);
    let typed: String = steps.iter().map(|s| s.ch).collect();
    assert_eq!(typed, "ab c");
    assert!(steps.iter().all(|s| s.delay_ms == 1));
}

#[test]
fn test_clipboard_steps_with_backup() {
    let injector = injector(InjectionMethod::Clipboard);
    let steps = injector.clipboard_steps("payload");
    assert_eq!(steps.len(), 10);
    assert!(matches!(steps[0], ClipboardStep::BackupClipboard));
    match &steps[1] {
        ClipboardStep::SetClipboard(t) => assert_eq!(t, "payload"),
        _ => panic!("the payload goes onto the clipboard"),
    }
    assert!(matches!(steps[2], ClipboardStep::Sleep(50)));
    assert!(matches!(steps[3], ClipboardStep::PressModifier));
    assert!(matches!(steps[5], ClipboardStep::ClickPasteKey));
    assert!(matches!(steps[7], ClipboardStep::ReleaseModifier));
    assert!(matches!(steps[8], ClipboardStep::Sleep(100)));
    assert!(matches!(steps[9], ClipboardStep::RestoreClipboard));
}

#[test]
fn test_clipboard_steps_without_backup() {
    let injector = TextInjector::new(&InjectionConfig {
        method: InjectionMethod::Clipboard,
        typing_speed_ms: 1,
        clipboard_backup: false,
    });
    let steps = injector.clipboard_steps("payload");
    assert_eq!(steps.len(), 9);
    assert!(matches!(&steps[0], ClipboardStep::SetClipboard(_)));
}
