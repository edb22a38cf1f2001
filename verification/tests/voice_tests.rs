//! Tests for the voice-capture manager.

use voxterm::voice::PollOutcome;
use voxterm::voice::RecorderStatus;
use voxterm::voice::TranscriberStatus;
use voxterm::voice::VoiceCaptureError;
use voxterm::voice::VoiceCaptureSource;
use voxterm::voice::VoiceCaptureTrigger;
use voxterm::voice::VoiceJobMessage;
use voxterm::voice::VoiceManager;
use voxterm::voice::using_native_pipeline;

#[test]
fn voice_manager_clamps_sensitivity() {
    let mut manager = VoiceManager::new(false, -35);
    assert_eq!(manager.adjust_sensitivity(1000), -10);
    assert_eq!(manager.adjust_sensitivity(-1000), -80);
}

#[test]
fn voice_manager_clamps_extreme_deltas() {
    let mut manager = VoiceManager::new(false, -35);
    assert_eq!(manager.adjust_sensitivity(i64::MAX), -10);
    assert_eq!(manager.adjust_sensitivity(i64::MIN), -80);
}

#[test]
fn voice_manager_steps_by_five() {
    let mut manager = VoiceManager::new(false, -35);
    assert_eq!(manager.adjust_sensitivity(5), -30);
    assert_eq!(manager.adjust_sensitivity(-5), -35);
}

#[test]
fn voice_manager_reports_idle_and_source() {
    let mut manager = VoiceManager::new(false, -35);
    assert!(manager.is_idle());
    manager.begin_job(VoiceCaptureSource::Python);
    assert_eq!(manager.active_source(), Some(VoiceCaptureSource::Python));
}

#[test]
fn voice_manager_is_idle_false_when_job_present() {
    let mut manager = VoiceManager::new(false, -35);
    manager.begin_job(VoiceCaptureSource::Native);
    assert!(!manager.is_idle());
}

#[test]
fn voice_manager_request_early_stop_sets_flag() {
    let mut manager = VoiceManager::new(false, -35);
    assert!(!manager.request_early_stop());

    manager.begin_job(VoiceCaptureSource::Native);
    assert!(manager.request_early_stop());
    assert!(manager.stop_requested());
}

#[test]
fn voice_manager_start_capture_errors_without_fallback() {
    let mut manager = VoiceManager::new(true, -35);
    assert!(manager
        .start_capture(
            VoiceCaptureTrigger::Manual,
            TranscriberStatus::NotConfigured,
            RecorderStatus::Unavailable,
        )
        .is_err());
}

#[test]
fn using_native_pipeline_requires_both_components() {
    assert!(!using_native_pipeline(false, false));
    assert!(!using_native_pipeline(true, false));
    assert!(!using_native_pipeline(false, true));
    assert!(using_native_pipeline(true, true));
}

#[test]
fn cancel_capture_suppresses_voice_message() {
    let mut manager = VoiceManager::new(false, -35);
    manager.begin_job(VoiceCaptureSource::Native);

    assert!(manager.cancel_capture());
    assert!(manager.stop_requested());

    let suppressed = manager.poll_message(PollOutcome::Message(VoiceJobMessage::Empty {
        source: VoiceCaptureSource::Native,
        metrics: None,
    }));
    assert!(suppressed.is_none());
    assert!(manager.is_idle());
    assert!(!manager.cancel_pending);
}

#[test]
fn poll_with_no_job_returns_nothing() {
    let mut manager = VoiceManager::new(false, -35);
    assert!(manager.poll_message(PollOutcome::NothingYet).is_none());
}

#[test]
fn poll_disconnect_without_cancel_reports_error() {
    let mut manager = VoiceManager::new(false, -35);
    manager.begin_job(VoiceCaptureSource::Native);
    let got = manager.poll_message(PollOutcome::Disconnected);
    match got {
        Some(VoiceJobMessage::Error(msg)) => {
            assert_eq!(msg, "voice capture worker disconnected unexpectedly");
        }
        other => panic!("unexpected poll result {:?}", other),
    }
    assert!(manager.is_idle());
}

#[test]
fn poll_message_passes_transcript_through() {
    let mut manager = VoiceManager::new(false, -35);
    manager.begin_job(VoiceCaptureSource::Native);
    let got = manager.poll_message(PollOutcome::Message(VoiceJobMessage::Transcript {
        text: "hello".to_string(),
        source: VoiceCaptureSource::Native,
        metrics: None,
    }));
    match got {
        Some(VoiceJobMessage::Transcript { text, source, metrics }) => {
            assert_eq!(text, "hello");
            assert_eq!(source, VoiceCaptureSource::Native);
            assert!(metrics.is_none());
        }
        other => panic!("unexpected poll result {:?}", other),
    }
    assert!(manager.is_idle());
}

#[test]
fn start_capture_reports_python_fallback() {
    let mut manager = VoiceManager::new(false, -35);
    let info = manager
        .start_capture(
            VoiceCaptureTrigger::Auto,
            TranscriberStatus::Loaded,
            RecorderStatus::Unavailable,
        )
        .expect("start should succeed")
        .expect("a capture should start");
    assert_eq!(info.pipeline_label, "Python pipeline");
    assert_eq!(
        info.fallback_note.as_deref(),
        Some("Recorder unavailable; falling back to python pipeline.")
    );
    assert_eq!(manager.active_source(), Some(VoiceCaptureSource::Python));
}

#[test]
fn start_capture_native_when_both_present() {
    let mut manager = VoiceManager::new(false, -35);
    let info = manager
        .start_capture(
            VoiceCaptureTrigger::Manual,
            TranscriberStatus::Loaded,
            RecorderStatus::Ready,
        )
        .expect("start should succeed")
        .expect("a capture should start");
    assert_eq!(info.pipeline_label, "Rust pipeline");
    assert!(info.fallback_note.is_none());
    assert_eq!(manager.active_source(), Some(VoiceCaptureSource::Native));
}

#[test]
fn start_capture_recorder_required_without_fallback() {
    let mut manager = VoiceManager::new(true, -35);
    let err = manager
        .start_capture(
            VoiceCaptureTrigger::Manual,
            TranscriberStatus::Loaded,
            RecorderStatus::Unavailable,
        )
        .expect_err("start should fail");
    assert_eq!(err, VoiceCaptureError::RecorderRequired);
}

#[test]
fn start_capture_transcriber_load_failure_is_an_error() {
    let mut manager = VoiceManager::new(false, -35);
    let err = manager
        .start_capture(
            VoiceCaptureTrigger::Manual,
            TranscriberStatus::LoadFailed,
            RecorderStatus::Ready,
        )
        .expect_err("start should fail");
    assert_eq!(err, VoiceCaptureError::TranscriberLoadFailed);
}
