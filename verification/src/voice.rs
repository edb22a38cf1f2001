//! Voice-capture lifecycle management.
//!
//! The manager owns the policy state of at most one running capture job:
//! which pipeline it runs on, whether a stop was requested, and whether the
//! job's eventual message must be discarded because the capture was
//! cancelled.  The actual recorder, transcriber and worker thread are the
//! host's collaborators; the host reports what it found (whether the
//! resources were available, what the worker's channel held) and the
//! manager decides what follows.

use vstd::prelude::*;

verus! {

/// Which pipeline produced, or will produce, a capture.
#[derive(Debug, Clone, Copy, PartialEq, Eq, Structural)]
pub enum VoiceCaptureSource {
    /// In-process recorder and speech-to-text.
    Native,
    /// Out-of-process fallback; cannot be stopped mid-capture.
    Python,
}

impl VoiceCaptureSource {
    /// The human label of the pipeline.
    pub open spec fn label_spec(self) -> Seq<char> {
        if self is Native {
            "Rust pipeline"@
        } else {
            "Python pipeline"@
        }
    }

    /// Returns the human label of the pipeline.
    pub fn label(&self) -> (r: String)
        ensures
            r@ == self.label_spec(),
    {
        match self {
            VoiceCaptureSource::Native => String::from_str("Rust pipeline"),
            VoiceCaptureSource::Python => String::from_str("Python pipeline"),
        }
    }
}

/// What prompted a capture to start.
#[derive(Debug, Clone, Copy, PartialEq, Eq, Structural)]
pub enum VoiceCaptureTrigger {
    Manual,
    Auto,
}

/// Capture quality counters reported by the worker, used only for display.
#[derive(Debug, Clone, Copy, PartialEq, Eq, Structural)]
pub struct VoiceMetrics {
    pub frames_dropped: u64,
}

/// The one message a voice worker emits before exiting.
#[derive(Debug, PartialEq, Eq)]
pub enum VoiceJobMessage {
    /// Speech was transcribed.
    Transcript { text: String, source: VoiceCaptureSource, metrics: Option<VoiceMetrics> },
    /// The capture ended without usable speech.
    Empty { source: VoiceCaptureSource, metrics: Option<VoiceMetrics> },
    /// The worker failed.
    Error(String),
}

/// What the host found when it polled the worker's channel.
pub enum PollOutcome {
    /// The worker's message arrived.
    Message(VoiceJobMessage),
    /// Nothing yet; the worker is still running.
    NothingYet,
    /// The channel closed without a message.
    Disconnected,
}

/// The policy-visible state of a running capture job.
#[derive(Debug, Clone, Copy, PartialEq, Eq, Structural)]
pub struct JobState {
    /// Whether the worker was asked to stop (early stop or cancel).
    pub stop_requested: bool,
}

/// How the transcriber resource looked when the host tried to obtain it.
#[derive(Debug, Clone, Copy, PartialEq, Eq, Structural)]
pub enum TranscriberStatus {
    /// A native speech-to-text model is loaded.
    Loaded,
    /// No native model is configured.
    NotConfigured,
    /// A model is configured but failed to load.
    LoadFailed,
}

/// How the native recorder looked when the host tried to obtain it.
#[derive(Debug, Clone, Copy, PartialEq, Eq, Structural)]
pub enum RecorderStatus {
    Ready,
    Unavailable,
}

/// Why a capture could not start.
#[derive(Debug, Clone, Copy, PartialEq, Eq, Structural)]
pub enum VoiceCaptureError {
    /// The configured native model failed to load.
    TranscriberLoadFailed,
    /// No native model and the python fallback is disallowed.
    NativeModelRequired,
    /// No recorder and the python fallback is disallowed.
    RecorderRequired,
}

/// What a successful capture start reports for display.
#[derive(Debug)]
pub struct VoiceStartInfo {
    pub pipeline_label: String,
    pub fallback_note: Option<String>,
}

/// The sensitivity threshold clamped to the supported dB range.
pub open spec fn clamp_db(v: int) -> int {
    if v < -80 {
        -80
    } else if v > -10 {
        -10
    } else {
        v
    }
}

/// Owner of the voice-capture policy state.
#[derive(Debug, Clone, Copy, PartialEq, Eq, Structural)]
pub struct VoiceManager {
    /// Voice-activity threshold in dB, adjustable from the keyboard.
    pub vad_threshold_db: i64,
    /// When set, never fall back to the python pipeline.
    pub no_python_fallback: bool,
    /// The running job, if any.
    pub job: Option<JobState>,
    /// Whether the next worker message must be discarded.
    pub cancel_pending: bool,
    /// The pipeline of the running job.
    pub active_source: Option<VoiceCaptureSource>,
}

/// The manager after a cancel request, and whether anything was cancelled.
pub open spec fn cancel_transition(m: VoiceManager) -> (VoiceManager, bool) {
    match m.job {
        Option::Some(_) => (
            VoiceManager {
                job: Option::Some(JobState { stop_requested: true }),
                cancel_pending: true,
                ..m
            },
            true,
        ),
        Option::None => (m, false),
    }
}

/// The manager after an early-stop request, and whether a job was running.
pub open spec fn early_stop_transition(m: VoiceManager) -> (VoiceManager, bool) {
    match m.job {
        Option::Some(_) => (
            VoiceManager { job: Option::Some(JobState { stop_requested: true }), ..m },
            true,
        ),
        Option::None => (m, false),
    }
}

/// The manager after a poll: when a job was present and the channel yielded
/// a message or a disconnect, the job is over and the flags are cleared.
pub open spec fn poll_state(m: VoiceManager, job_ended: bool) -> VoiceManager {
    if m.job is Some && job_ended {
        VoiceManager {
            job: Option::None,
            active_source: Option::None,
            cancel_pending: false,
            ..m
        }
    } else {
        m
    }
}

/// True for the outcomes that end the running job.
pub open spec fn outcome_ends_job(outcome: PollOutcome) -> bool {
    !(outcome is NothingYet)
}

/// Law: the native pipeline is in use exactly when both the native
/// transcriber and the native recorder are present.
pub fn using_native_pipeline(has_transcriber: bool, has_recorder: bool) -> (r: bool)
    ensures
        r == (has_transcriber && has_recorder),
{
    has_transcriber && has_recorder
}

impl VoiceManager {
    /// A manager with no job and the given configuration.
    pub fn new(no_python_fallback: bool, vad_threshold_db: i64) -> (r: VoiceManager)
        ensures
            r == (VoiceManager {
                vad_threshold_db,
                no_python_fallback,
                job: Option::None,
                cancel_pending: false,
                active_source: Option::None,
            }),
    {
        VoiceManager {
            vad_threshold_db,
            no_python_fallback,
            job: Option::None,
            cancel_pending: false,
            active_source: Option::None,
        }
    }

    /// Law: the sensitivity clamp.  Moves the threshold by `delta_db` and
    /// clamps it into [-80, -10] dB; however large the step, the result is
    /// exactly -10 upward and exactly -80 downward.
    pub fn adjust_sensitivity(&mut self, delta_db: i64) -> (r: i64)
        ensures
            r == clamp_db(old(self).vad_threshold_db + delta_db),
            *final(self) == (VoiceManager { vad_threshold_db: r, ..*old(self) }),
    {
        let sum: i128 = self.vad_threshold_db as i128 + delta_db as i128;
        let next: i64 = if sum < -80 {
            -80
        } else if sum > -10 {
            -10
        } else {
            sum as i64
        };
        self.vad_threshold_db = next;
        next
    }

    /// True when no capture job is running.
    pub fn is_idle(&self) -> (r: bool)
        ensures
            r == (self.job is None),
    {
        match self.job {
            Option::Some(_) => false,
            Option::None => true,
        }
    }

    /// The pipeline of the running job, if any.
    pub fn active_source(&self) -> (r: Option<VoiceCaptureSource>)
        ensures
            r == self.active_source,
    {
        self.active_source
    }

    /// True when the running job has been asked to stop.
    pub fn stop_requested(&self) -> (r: bool)
        ensures
            r == (self.job matches Some(j) && j.stop_requested),
    {
        match self.job {
            Option::Some(j) => j.stop_requested,
            Option::None => false,
        }
    }

    /// Cancels any running capture: the job is asked to stop and its final
    /// message will be discarded.  Returns whether a capture was cancelled.
    pub fn cancel_capture(&mut self) -> (r: bool)
        ensures
            *final(self) == cancel_transition(*old(self)).0,
            r == cancel_transition(*old(self)).1,
    {
        match self.job {
            Option::Some(_) => {
                self.job = Option::Some(JobState { stop_requested: true });
                self.cancel_pending = true;
                true
            },
            Option::None => false,
        }
    }

    /// Asks the running capture to stop early but keep its final message.
    /// Returns whether a capture was running.
    pub fn request_early_stop(&mut self) -> (r: bool)
        ensures
            *final(self) == early_stop_transition(*old(self)).0,
            r == early_stop_transition(*old(self)).1,
    {
        match self.job {
            Option::Some(_) => {
                self.job = Option::Some(JobState { stop_requested: true });
                true
            },
            Option::None => false,
        }
    }

    /// Records that a worker was spawned on the given pipeline.
    pub fn begin_job(&mut self, source: VoiceCaptureSource)
        ensures
            *final(self) == (VoiceManager {
                job: Option::Some(JobState { stop_requested: false }),
                cancel_pending: false,
                active_source: Option::Some(source),
                ..*old(self)
            }),
    {
        self.job = Option::Some(JobState { stop_requested: false });
        self.cancel_pending = false;
        self.active_source = Option::Some(source);
    }

    /// Decides whether and how a capture starts, given how the resources
    /// looked.  Success is owed whenever no job is running and neither the
    /// transcriber load nor the no-fallback policy forbids it; `Ok(None)`
    /// reports a capture already running.
    pub fn start_capture(
        &mut self,
        trigger: VoiceCaptureTrigger,
        transcriber: TranscriberStatus,
        recorder: RecorderStatus,
    ) -> (r: Result<Option<VoiceStartInfo>, VoiceCaptureError>)
        ensures
            old(self).job is Some ==> (r matches Ok(o) && o is None && *final(self) == *old(
                self,
            )),
            old(self).job is None && transcriber is LoadFailed ==> (r matches Err(e) && e
                == VoiceCaptureError::TranscriberLoadFailed && *final(self) == *old(self)),
            old(self).job is None && transcriber is NotConfigured && old(self).no_python_fallback
                ==> (r matches Err(e) && e == VoiceCaptureError::NativeModelRequired && *final(self)
                == *old(self)),
            old(self).job is None && transcriber is Loaded && recorder is Unavailable && old(
                self,
            ).no_python_fallback ==> (r matches Err(e) && e == VoiceCaptureError::RecorderRequired
                && *final(self) == *old(self)),
            old(self).job is None && !old(self).no_python_fallback && !(transcriber is LoadFailed)
                || old(self).job is None && transcriber is Loaded && recorder is Ready ==> ({
                let native = transcriber is Loaded && recorder is Ready;
                let src = if native {
                    VoiceCaptureSource::Native
                } else {
                    VoiceCaptureSource::Python
                };
                &&& r matches Ok(o)
                &&& o matches Some(info)
                &&& info.pipeline_label@ == src.label_spec()
                &&& (if transcriber is Loaded && recorder is Unavailable {
                    info.fallback_note matches Some(n) && n@
                        == "Recorder unavailable; falling back to python pipeline."@
                } else {
                    info.fallback_note is None
                })
                &&& *final(self) == (VoiceManager {
                    job: Option::Some(JobState { stop_requested: false }),
                    cancel_pending: false,
                    active_source: Option::Some(src),
                    ..*old(self)
                })
            }),
    {
        if !self.is_idle() {
            return Result::Ok(Option::None);
        }
        match transcriber {
            TranscriberStatus::LoadFailed => {
                return Result::Err(VoiceCaptureError::TranscriberLoadFailed);
            },
            TranscriberStatus::NotConfigured => {
                if self.no_python_fallback {
                    return Result::Err(VoiceCaptureError::NativeModelRequired);
                }
            },
            TranscriberStatus::Loaded => {
            },
        }
        let has_transcriber = match transcriber {
            TranscriberStatus::Loaded => true,
            _ => false,
        };
        let mut fallback_note: Option<String> = Option::None;
        let has_recorder: bool;
        if has_transcriber {
            match recorder {
                RecorderStatus::Ready => {
                    has_recorder = true;
                },
                RecorderStatus::Unavailable => {
                    if self.no_python_fallback {
                        return Result::Err(VoiceCaptureError::RecorderRequired);
                    }
                    fallback_note = Option::Some(
                        String::from_str(
                            "Recorder unavailable; falling back to python pipeline.",
                        ),
                    );
                    has_recorder = false;
                },
            }
        } else {
            has_recorder = false;
        }
        let native = using_native_pipeline(has_transcriber, has_recorder);
        let source = if native {
            VoiceCaptureSource::Native
        } else {
            VoiceCaptureSource::Python
        };
        self.begin_job(source);
        let _ = trigger;
        Result::Ok(
            Option::Some(
                VoiceStartInfo { pipeline_label: source.label(), fallback_note },
            ),
        )
    }

    /// Resolves what the host found on the worker's channel.  A first
    /// message or a disconnect ends the job; a cancelled job's message is
    /// discarded; a disconnect without a message and without a cancel is
    /// surfaced as a worker error.
    pub fn poll_message(&mut self, outcome: PollOutcome) -> (r: Option<VoiceJobMessage>)
        ensures
            *final(self) == poll_state(*old(self), outcome_ends_job(outcome)),
            old(self).job is None ==> r is None,
            old(self).job is Some && outcome is NothingYet ==> r is None,
            old(self).job is Some && old(self).cancel_pending && !(outcome is NothingYet) ==> r
                is None,
            old(self).job is Some && !old(self).cancel_pending ==> (match outcome {
                PollOutcome::Message(m) => r == Some(m),
                PollOutcome::NothingYet => r is None,
                PollOutcome::Disconnected => r matches Some(e) && e matches VoiceJobMessage::Error(
                    msg,
                ) && msg@ == "voice capture worker disconnected unexpectedly"@,
            }),
    {
        if self.is_idle() {
            return Option::None;
        }
        match outcome {
            PollOutcome::NothingYet => Option::None,
            PollOutcome::Message(m) => {
                self.job = Option::None;
                self.active_source = Option::None;
                if self.cancel_pending {
                    self.cancel_pending = false;
                    Option::None
                } else {
                    Option::Some(m)
                }
            },
            PollOutcome::Disconnected => {
                self.job = Option::None;
                self.active_source = Option::None;
                let was_cancelled = self.cancel_pending;
                self.cancel_pending = false;
                if was_cancelled {
                    Option::None
                } else {
                    Option::Some(
                        VoiceJobMessage::Error(
                            String::from_str("voice capture worker disconnected unexpectedly"),
                        ),
                    )
                }
            },
        }
    }
}

/// Law: a cancelled capture is silent.  Cancelling marks the job, and the
/// poll that then receives the worker's message clears the job and the
/// cancel flag; `poll_message`'s contract returns `None` for that poll, so
/// the discarded message never reaches the caller and the manager is idle.
pub proof fn lemma_cancelled_capture_silent(m: VoiceManager)
    requires
        m.job is Some,
    ensures
        cancel_transition(m).0.cancel_pending,
        cancel_transition(m).0.job is Some,
        poll_state(cancel_transition(m).0, true).job is None,
        poll_state(cancel_transition(m).0, true).active_source is None,
        !poll_state(cancel_transition(m).0, true).cancel_pending,
{
}

} // verus!
