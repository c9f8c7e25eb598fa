use dictation::error::DictationError;
use dictation::menu::{menu_set_accelerators, MenuAcceleratorUpdate};
use dictation::notify::{applescript_escape, notification_script};
use dictation::session::{DictationSessionState, SpeechSession};
use dictation::terminal::{terminal_close, terminal_open, terminal_resize, terminal_write};

#[test]
fn session_passes_through_processing() {
    let mut s = SpeechSession::new();
    assert_eq!(s.start(true, true).unwrap(), DictationSessionState::Listening);
    assert_eq!(s.begin_stop().unwrap(), DictationSessionState::Processing);
    assert_eq!(s.finish_stop().unwrap(), DictationSessionState::Idle);
    assert_eq!(s.cancel().unwrap_err(), DictationError::Conflict);
}

#[test]
fn session_cancel_works_from_processing() {
    let mut s = SpeechSession::new();
    s.start(true, true).unwrap();
    s.begin_stop().unwrap();
    assert_eq!(s.cancel().unwrap(), DictationSessionState::Idle);
}

#[test]
fn session_refusals_leave_state_alone() {
    let mut s = SpeechSession::new();
    assert_eq!(s.begin_stop().unwrap_err(), DictationError::Conflict);
    assert_eq!(s.finish_stop().unwrap_err(), DictationError::Conflict);
    assert_eq!(s.start(true, false).unwrap_err(), DictationError::ModelNotReady);
    assert_eq!(s.start(false, false).unwrap_err(), DictationError::ModelNotReady);
    assert_eq!(s.start(false, true).unwrap_err(), DictationError::PermissionDenied);
    assert_eq!(s.start(true, true).unwrap(), DictationSessionState::Listening);
    assert_eq!(s.start(true, true).unwrap_err(), DictationError::Conflict);
}

#[test]
fn error_messages_are_stable() {
    assert_eq!(
        DictationError::InvalidArgument.message(),
        "A non-empty identifier is required."
    );
    assert_eq!(
        DictationError::PermissionDenied.message(),
        "Microphone permission was denied."
    );
    assert_eq!(
        DictationError::ModelNotReady.message(),
        "The dictation model is not ready."
    );
    assert_eq!(
        DictationError::Conflict.message(),
        "The dictation session does not allow this transition."
    );
    assert_eq!(
        DictationError::Unsupported.message(),
        "Dictation is not available on mobile builds."
    );
}

#[test]
fn escape_doubles_backslashes_and_quotes() {
    assert_eq!(applescript_escape("plain text"), "plain text");
    assert_eq!(applescript_escape("a\"b"), "a\\\"b");
    assert_eq!(applescript_escape("a\\b"), "a\\\\b");
    assert_eq!(applescript_escape("\\\""), "\\\\\\\"");
    assert_eq!(applescript_escape(""), "");
}

#[test]
fn notification_script_embeds_escaped_text() {
    let script = notification_script("Build done", "All 3 targets built");
    assert_eq!(
        script,
        "display notification \"All 3 targets built\" with title \"Build done\""
    );
    let tricky = notification_script("a\"b", "c\\d");
    assert_eq!(
        tricky,
        "display notification \"c\\\\d\" with title \"a\\\"b\""
    );
}

#[test]
fn menu_accepts_every_batch() {
    assert!(menu_set_accelerators(Vec::new()).is_ok());
    let updates = vec![
        MenuAcceleratorUpdate { id: "file.save".to_string(), accelerator: Some("Cmd+S".to_string()) },
        MenuAcceleratorUpdate { id: "file.open".to_string(), accelerator: None },
    ];
    assert!(menu_set_accelerators(updates).is_ok());
}

#[test]
fn terminal_open_requires_an_id() {
    let err = terminal_open("ws-1".to_string(), "   ".to_string(), 80, 24).unwrap_err();
    assert_eq!(err, "Terminal id is required");
    let err = terminal_open("ws-1".to_string(), String::new(), 80, 24).unwrap_err();
    assert_eq!(err, "Terminal id is required");
}

#[test]
fn terminal_backend_is_absent() {
    let msg = "Terminal is not available on mobile builds.";
    assert_eq!(
        terminal_open("ws-1".to_string(), "term-1".to_string(), 80, 24).unwrap_err(),
        msg
    );
    assert_eq!(
        terminal_write("ws-1".to_string(), "term-1".to_string(), "ls\n".to_string()).unwrap_err(),
        msg
    );
    assert_eq!(
        terminal_resize("ws-1".to_string(), "term-1".to_string(), 120, 40).unwrap_err(),
        msg
    );
    assert_eq!(
        terminal_close("ws-1".to_string(), "term-1".to_string()).unwrap_err(),
        msg
    );
}
