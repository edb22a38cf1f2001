//! Tests for the coordinator's decisions: readiness, auto-trigger,
//! statuses, transcript delivery and the Enter key.

use voxterm::coordinator::EnterAction;
use voxterm::coordinator::OverlayState;
use voxterm::coordinator::change_sensitivity;
use voxterm::coordinator::handle_voice_message;
use voxterm::coordinator::on_enter_key;
use voxterm::coordinator::on_status_deadline;
use voxterm::coordinator::on_transcript_message;
use voxterm::coordinator::prompt_ready;
use voxterm::coordinator::should_auto_trigger;
use voxterm::coordinator::start_voice_capture;
use voxterm::coordinator::toggle_auto_voice;
use voxterm::coordinator::toggle_send_mode;
use voxterm::coordinator::transcript_ready;
use voxterm::coordinator::try_flush_pending;
use voxterm::prompt::PromptTracker;
use voxterm::transcript::SendMode;
use voxterm::voice::RecorderStatus;
use voxterm::voice::TranscriberStatus;
use voxterm::voice::VoiceCaptureSource;
use voxterm::voice::VoiceCaptureTrigger;
use voxterm::voice::VoiceJobMessage;
use voxterm::voice::VoiceManager;

#[test]
fn prompt_ready_tracks_enter_ordering() {
    let mut tracker = PromptTracker::new(None, 0);
    assert!(!prompt_ready(&tracker, None));
    tracker.update_prompt_seen(1000, "codex> ", "test");
    assert!(prompt_ready(&tracker, None));
    assert!(prompt_ready(&tracker, Some(999)));
    assert!(!prompt_ready(&tracker, Some(1000)));
    assert!(!prompt_ready(&tracker, Some(1500)));
}

#[test]
fn transcript_ready_falls_back_to_idle_without_a_prompt() {
    let mut tracker = PromptTracker::new(None, 0);
    tracker.note_activity(1000);
    assert!(!transcript_ready(&tracker, None, 1100, 250));
    assert!(transcript_ready(&tracker, None, 1250, 250));

    // Once a prompt has been seen, idleness no longer substitutes.
    tracker.update_prompt_seen(2000, "codex> ", "test");
    assert!(!transcript_ready(&tracker, Some(3000), 9000, 250));
}

#[test]
fn should_auto_trigger_checks_prompt_and_idle() {
    let mut tracker = PromptTracker::new(None, 0);
    tracker.note_activity(8000);
    tracker.update_prompt_seen(8500, "codex> ", "test");

    assert!(should_auto_trigger(&tracker, 10000, 1000, Some(8000)));
    assert!(!should_auto_trigger(&tracker, 10000, 1000, Some(9000)));

    let mut tracker = PromptTracker::new(None, 0);
    tracker.note_activity(8800);
    assert!(should_auto_trigger(&tracker, 10000, 1000, Some(8000)));
    let mut tracker = PromptTracker::new(None, 0);
    tracker.note_activity(9500);
    assert!(!should_auto_trigger(&tracker, 10000, 1000, Some(8000)));
}

#[test]
fn should_auto_trigger_respects_last_trigger_equal_times() {
    let mut tracker = PromptTracker::new(None, 0);
    let now = 5000;
    tracker.note_activity(now);
    tracker.update_prompt_seen(now, "codex> ", "test");
    assert!(!should_auto_trigger(&tracker, now, 0, Some(now)));
}

#[test]
fn auto_trigger_gating_scenario() {
    // Output is seen, no prompt ever; auto-voice fires after the idle
    // window, then stays quiet until new output starts a new window.
    let mut tracker = PromptTracker::new(None, 0);
    tracker.note_activity(1000);
    assert!(should_auto_trigger(&tracker, 2200, 1000, None));

    let fired_at = 2200;
    assert!(!should_auto_trigger(&tracker, 2300, 1000, Some(fired_at)));
    assert!(!should_auto_trigger(&tracker, 9000, 1000, Some(fired_at)));

    tracker.note_activity(9500);
    assert!(!should_auto_trigger(&tracker, 10000, 1000, Some(fired_at)));
    assert!(should_auto_trigger(&tracker, 10600, 1000, Some(fired_at)));
}

#[test]
fn set_status_updates_deadline() {
    let mut state = OverlayState::new(false, SendMode::Auto);
    let now = 1000;
    let sent = state.set_status("status", Some(50), now);
    assert_eq!(sent.as_deref(), Some("status"));
    assert_eq!(state.status_clear_deadline, Some(1050));

    let sent = state.set_status("steady", None, now);
    assert_eq!(sent.as_deref(), Some("steady"));
    assert!(state.status_clear_deadline.is_none());

    // The same text again is suppressed.
    assert!(state.set_status("steady", None, now).is_none());
}

#[test]
fn try_flush_pending_sends_when_idle_ready() {
    let mut state = OverlayState::new(false, SendMode::Auto);
    let mut tracker = PromptTracker::new(None, 0);
    tracker.note_activity(1000);

    let arm = on_transcript_message(
        &mut state,
        &tracker,
        true,
        "hello".to_string(),
        VoiceCaptureSource::Native,
        None,
        1010,
        50,
    );
    assert!(arm.send.is_none());
    let arm = on_transcript_message(
        &mut state,
        &tracker,
        true,
        "world".to_string(),
        VoiceCaptureSource::Native,
        None,
        1020,
        50,
    );
    assert!(arm.send.is_none());
    assert_eq!(state.pending_transcripts.len(), 2);

    let plan = try_flush_pending(&mut state, &tracker, 1051, 50).expect("a flush");
    let send = plan.send.expect("a batch to send");
    assert_eq!(send.text, "hello world");
    assert!(send.append_newline);
    assert!(state.pending_transcripts.is_empty());
}

#[test]
fn handle_voice_message_sends_status_and_transcript() {
    let mut state = OverlayState::new(false, SendMode::Auto);
    let effect = handle_voice_message(
        &mut state,
        VoiceJobMessage::Transcript {
            text: " hello ".to_string(),
            source: VoiceCaptureSource::Native,
            metrics: None,
        },
        1000,
    );
    let status = effect.status.expect("status message");
    assert!(status.contains("Transcript ready"));
    let send = effect.send.expect("a transcript to send");
    assert_eq!(send.text, "hello");
    assert!(send.append_newline);
}

#[test]
fn handle_voice_message_reports_missing_speech() {
    let mut state = OverlayState::new(false, SendMode::Auto);
    let effect = handle_voice_message(
        &mut state,
        VoiceJobMessage::Empty {
            source: VoiceCaptureSource::Native,
            metrics: None,
        },
        1000,
    );
    assert_eq!(
        effect.status.as_deref(),
        Some("No speech detected (Rust pipeline)")
    );
    assert!(effect.send.is_none());
    assert!(!effect.rearm_activity);
}

#[test]
fn handle_voice_message_reasserts_the_banner_for_auto_voice() {
    let mut state = OverlayState::new(true, SendMode::Auto);
    let effect = handle_voice_message(
        &mut state,
        VoiceJobMessage::Empty {
            source: VoiceCaptureSource::Native,
            metrics: None,
        },
        1000,
    );
    assert_eq!(effect.status.as_deref(), Some("Auto-voice enabled"));
    assert!(effect.rearm_activity);
}

#[test]
fn handle_voice_message_reports_worker_errors() {
    let mut state = OverlayState::new(false, SendMode::Auto);
    let effect = handle_voice_message(
        &mut state,
        VoiceJobMessage::Error("boom".to_string()),
        1000,
    );
    assert_eq!(
        effect.status.as_deref(),
        Some("Voice capture error (see log)")
    );
}

#[test]
fn transcript_auto_delivery_scenario() {
    // Prompt seen at t1, no Enter ever: a transcript at t2 goes straight
    // to the child with a submit key, and the stamp moves to t2.
    let mut tracker = PromptTracker::new(None, 0);
    tracker.update_prompt_seen(1000, "codex> ", "test");

    let mut state = OverlayState::new(false, SendMode::Auto);
    let arm = on_transcript_message(
        &mut state,
        &tracker,
        true,
        "  hello  ".to_string(),
        VoiceCaptureSource::Native,
        None,
        2000,
        250,
    );
    let send = arm.send.expect("delivered at once");
    assert_eq!(send.text, "hello");
    assert!(send.append_newline);
    let status = arm.ready_status.expect("ready status");
    assert_eq!(status, "Transcript ready (Rust pipeline)");
    assert_eq!(state.status_clear_deadline, Some(4000));

    state.record_transcript_outcome(send.append_newline, 2000);
    assert_eq!(state.last_enter_at, Some(2000));
}

#[test]
fn insert_mode_batching_scenario() {
    // Not ready: two Insert transcripts queue up; after the idle window
    // they merge into one text with no submit key.
    let mut tracker = PromptTracker::new(None, 0);
    tracker.note_activity(1000);
    let mut state = OverlayState::new(false, SendMode::Insert);
    state.last_enter_at = Some(990);

    let arm = on_transcript_message(
        &mut state,
        &tracker,
        true,
        "hello".to_string(),
        VoiceCaptureSource::Native,
        None,
        1010,
        250,
    );
    assert!(arm.send.is_none());
    let arm = on_transcript_message(
        &mut state,
        &tracker,
        true,
        "world".to_string(),
        VoiceCaptureSource::Native,
        None,
        1020,
        250,
    );
    assert!(arm.send.is_none());
    assert_eq!(state.pending_transcripts.len(), 2);

    let plan = try_flush_pending(&mut state, &tracker, 1251, 250).expect("a flush");
    let send = plan.send.expect("a batch to send");
    assert_eq!(send.text, "hello world");
    assert!(!send.append_newline);
    assert!(state.pending_transcripts.is_empty());
}

#[test]
fn queue_overflow_reports_the_drop() {
    let mut tracker = PromptTracker::new(None, 0);
    tracker.note_activity(1000);
    let mut state = OverlayState::new(false, SendMode::Auto);

    for i in 0..6 {
        let arm = on_transcript_message(
            &mut state,
            &tracker,
            true,
            format!("t{i}"),
            VoiceCaptureSource::Native,
            None,
            1010 + i,
            250,
        );
        if i < 5 {
            assert!(arm.queue_full_status.is_none());
        } else {
            assert_eq!(
                arm.queue_full_status.as_deref(),
                Some("Transcript queue full (oldest dropped)")
            );
        }
    }
    assert_eq!(state.pending_transcripts.len(), 5);
    assert_eq!(state.pending_transcripts[0].text, "t1");
    assert_eq!(state.pending_transcripts[4].text, "t5");
}

#[test]
fn enter_stops_native_capture_in_insert_mode() {
    let mut state = OverlayState::new(false, SendMode::Insert);
    let mut manager = VoiceManager::new(false, -35);
    manager.begin_job(VoiceCaptureSource::Native);
    let effect = on_enter_key(&mut state, &mut manager, 1000);
    assert_eq!(effect.action, EnterAction::StopEarly);
    assert_eq!(effect.status.as_deref(), Some("Processing..."));
    assert!(manager.stop_requested());
    assert!(!manager.cancel_pending);
}

#[test]
fn enter_cancels_python_capture_in_insert_mode() {
    let mut state = OverlayState::new(false, SendMode::Insert);
    let mut manager = VoiceManager::new(false, -35);
    manager.begin_job(VoiceCaptureSource::Python);
    let effect = on_enter_key(&mut state, &mut manager, 1000);
    assert_eq!(effect.action, EnterAction::CancelPythonCapture);
    assert_eq!(
        effect.status.as_deref(),
        Some("Capture cancelled (python fallback cannot stop early)")
    );
    assert!(manager.cancel_pending);
}

#[test]
fn enter_is_forwarded_outside_insert_captures() {
    let mut state = OverlayState::new(false, SendMode::Auto);
    let mut manager = VoiceManager::new(false, -35);
    manager.begin_job(VoiceCaptureSource::Native);
    let effect = on_enter_key(&mut state, &mut manager, 1000);
    assert_eq!(effect.action, EnterAction::ForwardEnter);

    state.record_enter_forwarded(1000);
    assert_eq!(state.last_enter_at, Some(1000));
}

#[test]
fn toggle_send_mode_cycles_and_announces() {
    let mut state = OverlayState::new(false, SendMode::Auto);
    let sent = toggle_send_mode(&mut state, 1000);
    assert_eq!(state.voice_send_mode, SendMode::Insert);
    assert_eq!(
        sent.as_deref(),
        Some("Send mode: insert (press Enter to send)")
    );
    let sent = toggle_send_mode(&mut state, 2000);
    assert_eq!(state.voice_send_mode, SendMode::Auto);
    assert_eq!(sent.as_deref(), Some("Send mode: auto (sends Enter)"));
}

#[test]
fn toggle_auto_voice_enables_and_wants_a_capture() {
    let mut state = OverlayState::new(false, SendMode::Auto);
    let mut manager = VoiceManager::new(false, -35);
    let effect = toggle_auto_voice(&mut state, &mut manager, 1000);
    assert!(state.auto_voice_enabled);
    assert_eq!(effect.status.as_deref(), Some("Auto-voice enabled"));
    assert!(effect.want_capture);
    assert!(state.status_clear_deadline.is_none());
}

#[test]
fn toggle_auto_voice_off_cancels_the_capture() {
    let mut state = OverlayState::new(true, SendMode::Auto);
    let mut manager = VoiceManager::new(false, -35);
    manager.begin_job(VoiceCaptureSource::Native);
    let effect = toggle_auto_voice(&mut state, &mut manager, 1000);
    assert!(!state.auto_voice_enabled);
    assert_eq!(
        effect.status.as_deref(),
        Some("Auto-voice disabled (capture cancelled)")
    );
    assert!(!effect.want_capture);
    assert!(manager.cancel_pending);
}

#[test]
fn status_deadline_reasserts_the_auto_voice_banner() {
    let mut state = OverlayState::new(true, SendMode::Auto);
    state.set_status("ephemeral", Some(100), 0);
    let tick = on_status_deadline(&mut state, true, 150);
    assert!(tick.clear);
    assert_eq!(tick.status.as_deref(), Some("Auto-voice enabled"));

    let mut state = OverlayState::new(false, SendMode::Auto);
    state.set_status("ephemeral", Some(100), 0);
    let tick = on_status_deadline(&mut state, true, 150);
    assert!(tick.clear);
    assert!(tick.status.is_none());
    assert!(state.current_status.is_none());
}

#[test]
fn status_deadline_waits_for_its_time() {
    let mut state = OverlayState::new(true, SendMode::Auto);
    state.set_status("ephemeral", Some(100), 0);
    let tick = on_status_deadline(&mut state, true, 50);
    assert!(!tick.clear);
    assert_eq!(state.current_status.as_deref(), Some("ephemeral"));
}

#[test]
fn change_sensitivity_announces_the_clamped_threshold() {
    let mut state = OverlayState::new(false, SendMode::Auto);
    let mut manager = VoiceManager::new(false, -35);
    let sent = change_sensitivity(&mut state, &mut manager, true, 1000);
    assert_eq!(
        sent.as_deref(),
        Some("Mic sensitivity: -30 dB (less sensitive)")
    );
    let sent = change_sensitivity(&mut state, &mut manager, false, 2000);
    assert_eq!(
        sent.as_deref(),
        Some("Mic sensitivity: -35 dB (more sensitive)")
    );
}

#[test]
fn start_voice_capture_reports_running_job_on_manual_only() {
    let mut state = OverlayState::new(false, SendMode::Auto);
    let mut manager = VoiceManager::new(false, -35);
    manager.begin_job(VoiceCaptureSource::Native);

    let sent = start_voice_capture(
        &mut state,
        &mut manager,
        VoiceCaptureTrigger::Manual,
        TranscriberStatus::NotConfigured,
        RecorderStatus::Unavailable,
        1000,
    )
    .expect("start capture manual");
    assert!(sent.expect("status message").contains("already running"));

    let sent = start_voice_capture(
        &mut state,
        &mut manager,
        VoiceCaptureTrigger::Auto,
        TranscriberStatus::NotConfigured,
        RecorderStatus::Unavailable,
        1000,
    )
    .expect("start capture auto");
    assert!(sent.is_none());
}

#[test]
fn start_voice_capture_announces_listening() {
    let mut state = OverlayState::new(false, SendMode::Auto);
    let mut manager = VoiceManager::new(false, -35);
    let sent = start_voice_capture(
        &mut state,
        &mut manager,
        VoiceCaptureTrigger::Manual,
        TranscriberStatus::Loaded,
        RecorderStatus::Ready,
        1000,
    )
    .expect("start capture");
    assert_eq!(
        sent.as_deref(),
        Some("Listening Manual Mode (Rust pipeline)")
    );
    assert!(!manager.is_idle());
}
