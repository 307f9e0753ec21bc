use meeting_recorder::lifecycle::{BackendStatus, CaptureError, Completion, Lifecycle, Phase};

#[test]
fn stop_without_start_is_misuse() {
    let mut l = Lifecycle::new();
    assert!(matches!(l.stop(), Err(CaptureError::LifecycleMisuse)));
    assert_eq!(l.phase(), Phase::Idle);
}

#[test]
fn start_stop_complete_reaches_stopped() {
    let mut l = Lifecycle::new();
    assert!(l.start_allowed().is_ok());
    assert!(l.start(BackendStatus::Ready).is_ok());
    assert_eq!(l.phase(), Phase::Recording);
    assert!(l.stop().is_ok());
    assert_eq!(l.phase(), Phase::Draining);
    assert!(l.complete(Some(Completion::Finished)).is_ok());
    assert_eq!(l.phase(), Phase::Stopped);
}

#[test]
fn second_stop_is_misuse() {
    let mut l = Lifecycle::new();
    l.start(BackendStatus::Ready).unwrap_or(());
    assert!(l.stop().is_ok());
    assert!(l.complete(None).is_ok());
    assert!(matches!(l.stop(), Err(CaptureError::LifecycleMisuse)));
    assert_eq!(l.phase(), Phase::Stopped);
}

#[test]
fn double_start_is_misuse() {
    let mut l = Lifecycle::new();
    assert!(l.start(BackendStatus::Ready).is_ok());
    assert!(matches!(l.start_allowed(), Err(CaptureError::LifecycleMisuse)));
    assert!(matches!(l.start(BackendStatus::Ready), Err(CaptureError::LifecycleMisuse)));
    assert_eq!(l.phase(), Phase::Recording);
}

#[test]
fn missing_backend_leaves_idle() {
    let mut l = Lifecycle::new();
    assert!(matches!(l.start(BackendStatus::Unavailable), Err(CaptureError::BackendUnavailable)));
    assert_eq!(l.phase(), Phase::Idle);
    assert!(matches!(l.start(BackendStatus::FormatRejected), Err(CaptureError::StreamBuildFailed)));
    assert_eq!(l.phase(), Phase::Idle);
    assert!(l.start(BackendStatus::Ready).is_ok());
}

#[test]
fn sink_failure_is_reported_and_session_stops() {
    let mut l = Lifecycle::new();
    assert!(l.start(BackendStatus::Ready).is_ok());
    assert!(l.stop().is_ok());
    match l.complete(Some(Completion::Error(String::from("disk full")))) {
        Err(CaptureError::SinkError(d)) => assert_eq!(d, "disk full"),
        _ => panic!("expected a sink error"),
    }
    assert_eq!(l.phase(), Phase::Stopped);
}

#[test]
fn completion_outside_draining_is_misuse() {
    let mut l = Lifecycle::new();
    assert!(matches!(l.complete(Some(Completion::Finished)), Err(CaptureError::LifecycleMisuse)));
    assert_eq!(l.phase(), Phase::Idle);
}
