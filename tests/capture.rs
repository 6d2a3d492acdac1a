use vokey_transcribe::capture::{
    capture_step, AudioError, CaptureAction, CaptureEvent, CaptureState, MAX_STREAM_RETRIES,
    RETRY_DELAYS_MS,
};

#[test]
fn test_retry_delays_length() {
    assert_eq!(RETRY_DELAYS_MS.len(), MAX_STREAM_RETRIES as usize);
}

#[test]
fn test_retry_delays_are_ascending() {
    for i in 1..RETRY_DELAYS_MS.len() {
        assert!(
            RETRY_DELAYS_MS[i] > RETRY_DELAYS_MS[i - 1],
            "RETRY_DELAYS_MS[{}] ({}) should be > RETRY_DELAYS_MS[{}] ({})",
            i,
            RETRY_DELAYS_MS[i],
            i - 1,
            RETRY_DELAYS_MS[i - 1]
        );
    }
}

#[test]
fn test_retry_delays_specific_values() {
    assert_eq!(RETRY_DELAYS_MS, [200, 500, 1000]);
}

#[test]
fn stream_failure_is_retried_three_times_then_escalated() {
    let (s, a) = capture_step(CaptureState::Active, CaptureEvent::StreamFailed);
    assert_eq!(s, CaptureState::Recovering { attempt: 0 });
    assert_eq!(a, CaptureAction::RebuildAfter { delay_ms: 200 });
    let (s, a) = capture_step(s, CaptureEvent::RebuildFailed);
    assert_eq!(a, CaptureAction::RebuildAfter { delay_ms: 500 });
    let (s, a) = capture_step(s, CaptureEvent::RebuildFailed);
    assert_eq!(a, CaptureAction::RebuildAfter { delay_ms: 1000 });
    let (s, a) = capture_step(s, CaptureEvent::RebuildFailed);
    assert_eq!(s, CaptureState::Idle);
    assert_eq!(a, CaptureAction::FinalizeAndEscalate);
}

#[test]
fn successful_rebuild_resumes_recording() {
    let (s, _) = capture_step(CaptureState::Active, CaptureEvent::StreamFailed);
    let (s, a) = capture_step(s, CaptureEvent::RebuildSucceeded);
    assert_eq!(s, CaptureState::Active);
    assert_eq!(a, CaptureAction::Resume);
}

#[test]
fn commands_drive_the_capture_thread() {
    assert_eq!(capture_step(CaptureState::Idle, CaptureEvent::StartCommand), (CaptureState::Idle, CaptureAction::Open));
    assert_eq!(capture_step(CaptureState::Idle, CaptureEvent::Opened), (CaptureState::Active, CaptureAction::ReplyStarted));
    assert_eq!(capture_step(CaptureState::Idle, CaptureEvent::OpenFailed), (CaptureState::Idle, CaptureAction::ReplyStartFailed));
    assert_eq!(capture_step(CaptureState::Active, CaptureEvent::StartCommand), (CaptureState::Idle, CaptureAction::FinalizeThenOpen));
    assert_eq!(capture_step(CaptureState::Active, CaptureEvent::StopCommand), (CaptureState::Idle, CaptureAction::FinalizeAndReply));
    assert_eq!(capture_step(CaptureState::Idle, CaptureEvent::StopCommand), (CaptureState::Idle, CaptureAction::ReplyNoActiveRecording));
    assert_eq!(capture_step(CaptureState::Active, CaptureEvent::ShutdownCommand), (CaptureState::Exited, CaptureAction::FinalizeAndExit));
    assert_eq!(capture_step(CaptureState::Idle, CaptureEvent::CommandsClosed), (CaptureState::Exited, CaptureAction::Exit));
    assert_eq!(capture_step(CaptureState::Idle, CaptureEvent::StreamFailed), (CaptureState::Idle, CaptureAction::Ignore));
}

#[test]
fn audio_error_texts() {
    assert_eq!(AudioError::NoInputDevice.to_string(), "No audio input device found");
    assert_eq!(
        AudioError::WriteFailed("disk full".to_string()).to_string(),
        "Failed to write audio data: disk full"
    );
}
