use dictation::error::DictationError;
use dictation::facade::DictationState;
use dictation::model::DictationModelState;
use dictation::session::DictationSessionState;

fn base() -> Option<String> {
    Some("base".to_string())
}

#[test]
fn status_of_unknown_model_is_bare_missing() {
    let d = DictationState::new(true);
    let st = d.model_status(Some("never-fetched".to_string())).unwrap();
    assert_eq!(st.state, DictationModelState::Missing);
    assert_eq!(st.model_id, "never-fetched");
    assert!(st.progress.is_none());
    assert!(st.path.is_none());
    assert!(st.error.is_none());
}

#[test]
fn absent_id_falls_back_to_base() {
    let d = DictationState::new(true);
    let st = d.model_status(None).unwrap();
    assert_eq!(st.model_id, "base");
    assert_eq!(st.state, DictationModelState::Missing);
}

#[test]
fn empty_id_is_rejected_before_anything_else() {
    let mut d = DictationState::new(true);
    let empty = Some(String::new());
    assert_eq!(d.model_status(empty.clone()).unwrap_err(), DictationError::InvalidArgument);
    assert_eq!(d.download_model(empty.clone()).unwrap_err(), DictationError::InvalidArgument);
    assert_eq!(d.cancel_download(empty.clone()).unwrap_err(), DictationError::InvalidArgument);
    assert_eq!(d.remove_model(empty.clone()).unwrap_err(), DictationError::InvalidArgument);
    let mut unsupported = DictationState::new(false);
    assert_eq!(
        unsupported.download_model(empty.clone()).unwrap_err(),
        DictationError::InvalidArgument
    );
}

#[test]
fn download_starts_with_zero_bytes() {
    let mut d = DictationState::new(true);
    let st = d.download_model(None).unwrap();
    assert_eq!(st.state, DictationModelState::Downloading);
    let p = st.progress.unwrap();
    assert_eq!(p.downloaded_bytes, 0);
    assert_eq!(p.total_bytes, None);
    assert!(st.path.is_none());
    assert!(st.error.is_none());
}

#[test]
fn second_download_attaches_to_the_live_transfer() {
    let mut d = DictationState::new(true);
    let first = d.download_model(base()).unwrap();
    assert_eq!(first.state, DictationModelState::Downloading);
    let id = "base".to_string();
    assert!(d.note_transfer_progress(&id, 5, Some(100)));
    let second = d.download_model(base()).unwrap();
    assert_eq!(second.state, DictationModelState::Downloading);
    let p = second.progress.unwrap();
    assert_eq!(p.downloaded_bytes, 5);
    assert_eq!(p.total_bytes, Some(100));
}

#[test]
fn cancel_before_completion_leaves_bare_missing() {
    let mut d = DictationState::new(true);
    d.download_model(base()).unwrap();
    let id = "base".to_string();
    assert!(d.note_transfer_progress(&id, 42, None));
    let st = d.cancel_download(base()).unwrap();
    assert_eq!(st.state, DictationModelState::Missing);
    assert!(st.path.is_none());
    assert!(st.progress.is_none());
    assert!(st.error.is_none());
    let polled = d.model_status(base()).unwrap();
    assert_eq!(polled.state, DictationModelState::Missing);
    assert!(polled.path.is_none());
}

#[test]
fn cancelled_transfer_driver_is_told_to_stop() {
    let mut d = DictationState::new(true);
    d.download_model(base()).unwrap();
    d.cancel_download(base()).unwrap();
    let id = "base".to_string();
    assert!(!d.note_transfer_progress(&id, 99, None));
    assert!(!d.complete_transfer(&id, "/cache/base.bin".to_string()));
    let st = d.model_status(base()).unwrap();
    assert_eq!(st.state, DictationModelState::Missing);
}

#[test]
fn progress_is_non_decreasing_across_polls() {
    let mut d = DictationState::new(true);
    d.download_model(base()).unwrap();
    let id = "base".to_string();
    d.note_transfer_progress(&id, 10, None);
    let a = d.model_status(base()).unwrap().progress.unwrap().downloaded_bytes;
    d.note_transfer_progress(&id, 7, None);
    let b = d.model_status(base()).unwrap().progress.unwrap().downloaded_bytes;
    d.note_transfer_progress(&id, 20, None);
    let c = d.model_status(base()).unwrap().progress.unwrap().downloaded_bytes;
    assert_eq!(a, 10);
    assert_eq!(b, 10);
    assert_eq!(c, 20);
    assert!(a <= b && b <= c);
}

#[test]
fn advertised_total_is_kept_once_known() {
    let mut d = DictationState::new(true);
    d.download_model(base()).unwrap();
    let id = "base".to_string();
    d.note_transfer_progress(&id, 1, Some(512));
    d.note_transfer_progress(&id, 2, None);
    let p = d.model_status(base()).unwrap().progress.unwrap();
    assert_eq!(p.total_bytes, Some(512));
    assert_eq!(p.downloaded_bytes, 2);
}

#[test]
fn failed_transfer_reports_error_and_allows_retry() {
    let mut d = DictationState::new(true);
    d.download_model(base()).unwrap();
    let id = "base".to_string();
    assert!(d.fail_transfer(&id, "network unreachable".to_string()));
    let st = d.model_status(base()).unwrap();
    assert_eq!(st.state, DictationModelState::Error);
    assert_eq!(st.error.as_deref(), Some("network unreachable"));
    assert!(st.path.is_none());
    let retry = d.download_model(base()).unwrap();
    assert_eq!(retry.state, DictationModelState::Downloading);
    assert_eq!(retry.progress.unwrap().downloaded_bytes, 0);
}

#[test]
fn completed_transfer_is_ready_at_its_path() {
    let mut d = DictationState::new(true);
    d.download_model(base()).unwrap();
    let id = "base".to_string();
    assert!(d.complete_transfer(&id, "/cache/base.bin".to_string()));
    let st = d.model_status(base()).unwrap();
    assert_eq!(st.state, DictationModelState::Ready);
    assert_eq!(st.path.as_deref(), Some("/cache/base.bin"));
    assert!(st.progress.is_none());
    assert!(st.error.is_none());
}

#[test]
fn cancel_of_a_ready_model_changes_nothing() {
    let mut d = DictationState::new(true);
    d.download_model(base()).unwrap();
    let id = "base".to_string();
    d.complete_transfer(&id, "/cache/base.bin".to_string());
    let st = d.cancel_download(base()).unwrap();
    assert_eq!(st.state, DictationModelState::Ready);
    assert_eq!(st.path.as_deref(), Some("/cache/base.bin"));
}

#[test]
fn download_of_a_ready_model_reports_ready() {
    let mut d = DictationState::new(true);
    d.download_model(base()).unwrap();
    let id = "base".to_string();
    d.complete_transfer(&id, "/cache/base.bin".to_string());
    let st = d.download_model(base()).unwrap();
    assert_eq!(st.state, DictationModelState::Ready);
}

#[test]
fn removed_model_needs_a_new_download_to_be_ready() {
    let mut d = DictationState::new(true);
    d.download_model(base()).unwrap();
    let id = "base".to_string();
    d.complete_transfer(&id, "/cache/base.bin".to_string());
    let removed = d.remove_model(base()).unwrap();
    assert_eq!(removed.state, DictationModelState::Missing);
    assert!(removed.path.is_none());
    assert_eq!(d.model_status(base()).unwrap().state, DictationModelState::Missing);
    assert!(!d.complete_transfer(&id, "/cache/base.bin".to_string()));
    assert_eq!(d.model_status(base()).unwrap().state, DictationModelState::Missing);
    d.download_model(base()).unwrap();
    assert!(d.complete_transfer(&id, "/cache/base.bin".to_string()));
    assert_eq!(d.model_status(base()).unwrap().state, DictationModelState::Ready);
}

#[test]
fn removing_a_downloading_model_cancels_then_deletes() {
    let mut d = DictationState::new(true);
    d.download_model(base()).unwrap();
    let id = "base".to_string();
    d.note_transfer_progress(&id, 17, None);
    let st = d.remove_model(base()).unwrap();
    assert_eq!(st.state, DictationModelState::Missing);
    assert!(!d.note_transfer_progress(&id, 18, None));
}

#[test]
fn models_download_independently() {
    let mut d = DictationState::new(true);
    d.download_model(Some("base".to_string())).unwrap();
    d.download_model(Some("large".to_string())).unwrap();
    let base_id = "base".to_string();
    let large_id = "large".to_string();
    d.note_transfer_progress(&base_id, 10, None);
    d.note_transfer_progress(&large_id, 30, None);
    d.cancel_download(Some("large".to_string())).unwrap();
    let st = d.model_status(Some("base".to_string())).unwrap();
    assert_eq!(st.state, DictationModelState::Downloading);
    assert_eq!(st.progress.unwrap().downloaded_bytes, 10);
    let other = d.model_status(Some("large".to_string())).unwrap();
    assert_eq!(other.state, DictationModelState::Missing);
}

#[test]
fn start_without_ready_model_fails_whatever_the_permission() {
    let mut d = DictationState::new(true);
    d.download_model(base()).unwrap();
    let s = d.start_session(None);
    assert_eq!(s.unwrap_err(), DictationError::ModelNotReady);
    d.request_permission(true);
    let s = d.start_session(None);
    assert_eq!(s.unwrap_err(), DictationError::ModelNotReady);
}

#[test]
fn start_without_permission_is_denied() {
    let mut d = DictationState::new(true);
    d.download_model(base()).unwrap();
    let id = "base".to_string();
    d.complete_transfer(&id, "/cache/base.bin".to_string());
    assert_eq!(d.start_session(None).unwrap_err(), DictationError::PermissionDenied);
    d.request_permission(false);
    assert_eq!(d.start_session(None).unwrap_err(), DictationError::PermissionDenied);
}

#[test]
fn session_lifecycle_start_stop_then_cancel_conflicts() {
    let mut d = DictationState::new(true);
    d.download_model(base()).unwrap();
    let id = "base".to_string();
    d.complete_transfer(&id, "/cache/base.bin".to_string());
    assert!(d.request_permission(true));
    let started = d.start_session(Some("en-US".to_string())).unwrap();
    assert_eq!(started, DictationSessionState::Listening);
    let stopped = d.stop_session().unwrap();
    assert_eq!(stopped, DictationSessionState::Idle);
    assert_eq!(d.cancel_session().unwrap_err(), DictationError::Conflict);
}

#[test]
fn session_conflicts_are_reported() {
    let mut d = DictationState::new(true);
    d.download_model(base()).unwrap();
    let id = "base".to_string();
    d.complete_transfer(&id, "/cache/base.bin".to_string());
    d.request_permission(true);
    assert_eq!(d.stop_session().unwrap_err(), DictationError::Conflict);
    d.start_session(None).unwrap();
    assert_eq!(d.start_session(None).unwrap_err(), DictationError::Conflict);
    let cancelled = d.cancel_session().unwrap();
    assert_eq!(cancelled, DictationSessionState::Idle);
}

#[test]
fn empty_language_tag_is_rejected() {
    let mut d = DictationState::new(true);
    assert_eq!(
        d.start_session(Some(String::new())).unwrap_err(),
        DictationError::InvalidArgument
    );
}

#[test]
fn unsupported_platform_is_a_fixed_responder() {
    let mut d = DictationState::new(false);
    assert!(!d.request_permission(true));
    assert!(!d.request_permission(false));
    let msg = "Dictation is not available on mobile builds.";
    let err = d.start_session(None).unwrap_err();
    assert_eq!(err, DictationError::Unsupported);
    assert_eq!(err.message(), msg);
    assert_eq!(d.stop_session().unwrap_err(), DictationError::Unsupported);
    assert_eq!(d.cancel_session().unwrap_err(), DictationError::Unsupported);
    assert_eq!(d.download_model(None).unwrap_err(), DictationError::Unsupported);
    assert_eq!(d.cancel_download(None).unwrap_err(), DictationError::Unsupported);
    let st = d.model_status(Some("any-model".to_string())).unwrap();
    assert_eq!(st.state, DictationModelState::Missing);
    assert_eq!(st.error.as_deref(), Some(msg));
    assert!(st.progress.is_none());
    assert!(st.path.is_none());
    let removed = d.remove_model(None).unwrap();
    assert_eq!(removed.state, DictationModelState::Missing);
    assert_eq!(removed.error.as_deref(), Some(msg));
}

#[test]
fn default_container_is_the_unsupported_one() {
    let mut d = DictationState::default();
    assert!(!d.request_permission(true));
    let st = d.model_status(None).unwrap();
    assert_eq!(st.state, DictationModelState::Missing);
}
