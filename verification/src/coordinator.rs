//! The overlay coordinator's decisions.
//!
//! The event loop itself lives with the host (channels, PTY, timers);
//! every decision it takes is a function here, from policy state and an
//! event to the new state and what to do: which bytes go to the child,
//! which status goes to the writer, whether a capture starts or stops.
//! The policy state is the single-owner record of spec-visible facts: the
//! send mode, when Enter was last forwarded, the transcript queue, and
//! the status line currently shown.

use vstd::prelude::*;

use crate::prompt::PromptTracker;
use crate::prompt::TrackerModel;
use crate::prompt::sat_add;
use crate::status::elapsed;
use crate::transcript::OutgoingText;
use crate::transcript::PendingTranscript;
use crate::transcript::SendMode;
use crate::transcript::TranscriptModel;
use crate::transcript::batch_label;
use crate::transcript::join_spaces;
use crate::transcript::kept_parts;
use crate::transcript::kept_sources;
use crate::transcript::merge_pending_transcripts;
use crate::transcript::prefix_len;
use crate::transcript::push_pending_transcript;
use crate::transcript::push_transition;
use crate::transcript::send_transcript;
use crate::text::dec_rep;
use crate::text::dec_rep_signed;
use crate::text::i64_to_string;
use crate::text::trim_spec;
use crate::text::u64_to_string;
use crate::voice::VoiceCaptureError;
use crate::voice::VoiceCaptureSource;
use crate::voice::VoiceCaptureTrigger;
use crate::voice::VoiceJobMessage;
use crate::voice::VoiceManager;
use crate::voice::VoiceMetrics;
use crate::voice::VoiceStartInfo;
use crate::voice::cancel_transition;

verus! {

/// Whether a prompt sighting outdates the last forwarded Enter: the child
/// printed its prompt after the user's last submission.
pub open spec fn spec_prompt_ready(prompt_seen_at: Option<u64>, last_enter_at: Option<u64>) -> bool {
    match (prompt_seen_at, last_enter_at) {
        (Option::Some(p), Option::Some(e)) => p > e,
        (Option::Some(_), Option::None) => true,
        _ => false,
    }
}

/// Law: prompt readiness monotonicity.  Right after a prompt sighting at
/// `t`, readiness holds exactly when no Enter was ever forwarded or the
/// sighting is later than the last one.
pub proof fn lemma_prompt_ready_after_update(t: u64, last_enter_at: Option<u64>)
    ensures
        spec_prompt_ready(Option::Some(t), last_enter_at) == (match last_enter_at {
            Option::None => true,
            Option::Some(e) => t > e,
        }),
{
}

/// Returns whether the tracked prompt outdates the last forwarded Enter.
pub fn prompt_ready(tracker: &PromptTracker, last_enter_at: Option<u64>) -> (r: bool)
    ensures
        r == spec_prompt_ready(tracker@.prompt_seen_at, last_enter_at),
{
    match (tracker.last_prompt_seen_at(), last_enter_at) {
        (Option::Some(p), Option::Some(e)) => p > e,
        (Option::Some(_), Option::None) => true,
        _ => false,
    }
}

/// Whether a transcript may be delivered: the prompt is ready, or no
/// prompt was ever seen and the output has been idle long enough.
pub open spec fn spec_transcript_ready(
    m: TrackerModel,
    last_enter_at: Option<u64>,
    now: u64,
    transcript_idle_timeout: u64,
) -> bool {
    spec_prompt_ready(m.prompt_seen_at, last_enter_at) || (m.prompt_seen_at is None && elapsed(
        now,
        m.last_output_at,
    ) >= transcript_idle_timeout)
}

/// Returns whether a transcript may be delivered now.
pub fn transcript_ready(
    tracker: &PromptTracker,
    last_enter_at: Option<u64>,
    now: u64,
    transcript_idle_timeout: u64,
) -> (r: bool)
    ensures
        r == spec_transcript_ready(tracker@, last_enter_at, now, transcript_idle_timeout),
{
    if prompt_ready(tracker, last_enter_at) {
        return true;
    }
    match tracker.last_prompt_seen_at() {
        Option::None => tracker.idle_ready(now, transcript_idle_timeout),
        Option::Some(_) => false,
    }
}

/// Whether auto-voice should fire: before any output, only once ever and
/// after an idle window; with a prompt seen, whenever the sighting
/// outdates the last trigger; otherwise after an idle window with new
/// output since the last trigger.
pub open spec fn spec_should_auto_trigger(
    m: TrackerModel,
    now: u64,
    idle_timeout: u64,
    last_trigger_at: Option<u64>,
) -> bool {
    if !m.has_seen_output {
        last_trigger_at is None && elapsed(now, m.last_output_at) >= idle_timeout
    } else if m.prompt_seen_at matches Some(p) && (match last_trigger_at {
        Option::None => true,
        Option::Some(last) => p > last,
    }) {
        true
    } else if elapsed(now, m.last_output_at) >= idle_timeout && (match last_trigger_at {
        Option::None => true,
        Option::Some(last) => m.last_output_at > last,
    }) {
        true
    } else {
        false
    }
}

/// Returns whether auto-voice should fire now.
pub fn should_auto_trigger(
    tracker: &PromptTracker,
    now: u64,
    idle_timeout: u64,
    last_trigger_at: Option<u64>,
) -> (r: bool)
    ensures
        r == spec_should_auto_trigger(tracker@, now, idle_timeout, last_trigger_at),
{
    if !tracker.has_seen_output() {
        return last_trigger_at.is_none() && tracker.idle_ready(now, idle_timeout);
    }
    match tracker.last_prompt_seen_at() {
        Option::Some(p) => {
            let outdates = match last_trigger_at {
                Option::None => true,
                Option::Some(last) => p > last,
            };
            if outdates {
                return true;
            }
        },
        Option::None => {
        },
    }
    if tracker.idle_ready(now, idle_timeout) {
        let fresh_output = match last_trigger_at {
            Option::None => true,
            Option::Some(last) => tracker.last_output_at() > last,
        };
        if fresh_output {
            return true;
        }
    }
    false
}

/// The "dropped N frames" note, present when the worker dropped frames.
pub open spec fn drop_note_spec(metrics: Option<VoiceMetrics>) -> Option<Seq<char>> {
    match metrics {
        Option::Some(m) => if m.frames_dropped > 0 {
            Option::Some("dropped "@ + dec_rep(m.frames_dropped as nat) + " frames"@)
        } else {
            Option::None
        },
        Option::None => Option::None,
    }
}

/// Builds the "dropped N frames" note for display.
pub fn drop_note(metrics: &Option<VoiceMetrics>) -> (r: Option<String>)
    ensures
        match drop_note_spec(*metrics) {
            Option::Some(n) => r matches Some(s) && s@ == n,
            Option::None => r is None,
        },
{
    match metrics {
        Option::Some(m) => {
            if m.frames_dropped > 0 {
                let mut s = String::from_str("dropped ");
                let digits = u64_to_string(m.frames_dropped);
                s.append(digits.as_str());
                s.append(" frames");
                Option::Some(s)
            } else {
                Option::None
            }
        },
        Option::None => Option::None,
    }
}

/// A label with its drop note appended, comma-separated.
pub open spec fn labelled_spec(label: Seq<char>, note: Option<Seq<char>>) -> Seq<char> {
    match note {
        Option::Some(n) => label + ", "@ + n,
        Option::None => label,
    }
}

/// The "Transcript ready" status: the labelled pipeline and, when more
/// entries stay queued, their count.
pub open spec fn ready_status_spec(labelled: Seq<char>, queued_remaining: int) -> Seq<char> {
    if queued_remaining > 0 {
        "Transcript ready ("@ + labelled + ") \u{2022} queued "@ + dec_rep(queued_remaining as nat)
    } else {
        "Transcript ready ("@ + labelled + ")"@
    }
}

/// Builds the "Transcript ready" status line.
pub fn ready_status(label: &str, note: Option<&String>, queued_remaining: usize) -> (r: String)
    ensures
        r@ == ready_status_spec(
            labelled_spec(
                label@,
                match note {
                    Option::Some(n) => Option::Some(n@),
                    Option::None => Option::None,
                },
            ),
            queued_remaining as int,
        ),
{
    let mut s = String::from_str("Transcript ready (");
    s.append(label);
    match note {
        Option::Some(n) => {
            s.append(", ");
            s.append(n.as_str());
        },
        Option::None => {
        },
    }
    if queued_remaining > 0 {
        s.append(") \u{2022} queued ");
        let digits = u64_to_string(queued_remaining as u64);
        s.append(digits.as_str());
    } else {
        s.append(")");
    }
    proof {
        assert(s@ =~= ready_status_spec(
            labelled_spec(
                label@,
                match note {
                    Option::Some(n) => Option::Some(n@),
                    Option::None => Option::None,
                },
            ),
            queued_remaining as int,
        ));
    }
    s
}

/// The "Transcript queued" status: the queue length and any drop note.
pub open spec fn queued_status_spec(queued: int, note: Option<Seq<char>>) -> Seq<char> {
    "Transcript queued ("@ + dec_rep(queued as nat) + (match note {
        Option::Some(n) => ", "@ + n,
        Option::None => Seq::<char>::empty(),
    }) + ")"@
}

/// Builds the "Transcript queued" status line.
pub fn queued_status(queued: usize, note: Option<&String>) -> (r: String)
    ensures
        r@ == queued_status_spec(
            queued as int,
            match note {
                Option::Some(n) => Option::Some(n@),
                Option::None => Option::None,
            },
        ),
{
    let mut s = String::from_str("Transcript queued (");
    let digits = u64_to_string(queued as u64);
    s.append(digits.as_str());
    match note {
        Option::Some(n) => {
            s.append(", ");
            s.append(n.as_str());
        },
        Option::None => {
        },
    }
    s.append(")");
    proof {
        assert(s@ =~= queued_status_spec(
            queued as int,
            match note {
                Option::Some(n) => Option::Some(n@),
                Option::None => Option::None,
            },
        ));
    }
    s
}

/// The "No speech detected" status.
pub open spec fn no_speech_status_spec(labelled: Seq<char>) -> Seq<char> {
    "No speech detected ("@ + labelled + ")"@
}

/// The sticky auto-voice banner, with any drop note.
pub open spec fn auto_voice_banner_spec(note: Option<Seq<char>>) -> Seq<char> {
    match note {
        Option::Some(n) => "Auto-voice enabled ("@ + n + ")"@,
        Option::None => "Auto-voice enabled"@,
    }
}

/// The "Listening" status shown while a capture runs.
pub open spec fn listening_status_spec(
    trigger: VoiceCaptureTrigger,
    label: Seq<char>,
    note: Option<Seq<char>>,
) -> Seq<char> {
    "Listening "@ + (if trigger is Manual {
        "Manual Mode"@
    } else {
        "Auto Mode"@
    }) + " ("@ + label + ")"@ + (match note {
        Option::Some(n) => " "@ + n,
        Option::None => Seq::<char>::empty(),
    })
}

/// Builds the "Listening" status line from a capture start report.
pub fn listening_status(trigger: VoiceCaptureTrigger, info: &VoiceStartInfo) -> (r: String)
    ensures
        r@ == listening_status_spec(
            trigger,
            info.pipeline_label@,
            match info.fallback_note {
                Option::Some(ref n) => Option::Some(n@),
                Option::None => Option::None,
            },
        ),
{
    let mut s = String::from_str("Listening ");
    match trigger {
        VoiceCaptureTrigger::Manual => s.append("Manual Mode"),
        VoiceCaptureTrigger::Auto => s.append("Auto Mode"),
    }
    s.append(" (");
    s.append(info.pipeline_label.as_str());
    s.append(")");
    match &info.fallback_note {
        Option::Some(n) => {
            s.append(" ");
            s.append(n.as_str());
        },
        Option::None => {
        },
    }
    proof {
        assert(s@ =~= listening_status_spec(
            trigger,
            info.pipeline_label@,
            match info.fallback_note {
                Option::Some(ref n) => Option::Some(n@),
                Option::None => Option::None,
            },
        ));
    }
    s
}

/// The "Mic sensitivity" status.
pub open spec fn sensitivity_status_spec(db: int, increased: bool) -> Seq<char> {
    "Mic sensitivity: "@ + dec_rep_signed(db) + " dB ("@ + (if increased {
        "less sensitive"@
    } else {
        "more sensitive"@
    }) + ")"@
}

/// Builds the "Mic sensitivity" status line.  Raising the threshold makes
/// the microphone less sensitive.
pub fn sensitivity_status(db: i64, increased: bool) -> (r: String)
    ensures
        r@ == sensitivity_status_spec(db as int, increased),
{
    let mut s = String::from_str("Mic sensitivity: ");
    let digits = i64_to_string(db);
    s.append(digits.as_str());
    s.append(" dB (");
    if increased {
        s.append("less sensitive");
    } else {
        s.append("more sensitive");
    }
    s.append(")");
    proof {
        assert(s@ =~= sensitivity_status_spec(db as int, increased));
    }
    s
}

/// The status announcing the active send mode.
pub open spec fn mode_status_spec(mode: SendMode) -> Seq<char> {
    if mode is Auto {
        "Send mode: auto (sends Enter)"@
    } else {
        "Send mode: insert (press Enter to send)"@
    }
}

/// The overlay's single-owner policy state.
#[derive(Debug)]
pub struct OverlayState {
    /// Whether idle-driven auto-captures fire.
    pub auto_voice_enabled: bool,
    /// How delivered transcripts are submitted.
    pub voice_send_mode: SendMode,
    /// When a submit key was last forwarded to the child.
    pub last_enter_at: Option<u64>,
    /// When auto-voice last fired.
    pub last_auto_trigger_at: Option<u64>,
    /// Transcripts waiting for delivery, oldest first.
    pub pending_transcripts: Vec<PendingTranscript>,
    /// When the shown status expires, if it does.
    pub status_clear_deadline: Option<u64>,
    /// The status text currently shown.
    pub current_status: Option<String>,
}

/// The non-status fields of two states agree.
pub open spec fn same_policy(a: OverlayState, b: OverlayState) -> bool {
    &&& a.auto_voice_enabled == b.auto_voice_enabled
    &&& a.voice_send_mode == b.voice_send_mode
    &&& a.last_enter_at == b.last_enter_at
    &&& a.last_auto_trigger_at == b.last_auto_trigger_at
    &&& a.pending_transcripts.deep_view() == b.pending_transcripts.deep_view()
}

/// The view of an optional status text.
pub open spec fn status_view(s: Option<String>) -> Option<Seq<char>> {
    match s {
        Option::Some(x) => Option::Some(x@),
        Option::None => Option::None,
    }
}

/// The status fields of two states agree.
pub open spec fn same_status(a: OverlayState, b: OverlayState) -> bool {
    &&& a.status_clear_deadline == b.status_clear_deadline
    &&& status_view(a.current_status) == status_view(b.current_status)
}

/// What showing a status leaves behind and sends: either the text was
/// already showing and nothing happens, or it is now showing with the
/// requested clear deadline and goes to the writer.  Only the status
/// fields of `pre` and `post` are constrained.
pub open spec fn status_outcome(
    pre: OverlayState,
    post: OverlayState,
    text: Seq<char>,
    clear_after_ms: Option<u64>,
    now: u64,
    sent: Option<String>,
) -> bool {
    if status_view(pre.current_status) == Option::Some(text) {
        &&& sent is None
        &&& same_status(pre, post)
    } else {
        &&& sent matches Some(msg) && msg@ == text
        &&& status_view(post.current_status) == Option::Some(text)
        &&& post.status_clear_deadline == (match clear_after_ms {
            Option::Some(d) => Option::Some(sat_add(now, d)),
            Option::None => Option::<u64>::None,
        })
    }
}

impl OverlayState {
    /// A fresh overlay: nothing queued, nothing shown.
    pub fn new(auto_voice_enabled: bool, voice_send_mode: SendMode) -> (r: OverlayState)
        ensures
            r.auto_voice_enabled == auto_voice_enabled,
            r.voice_send_mode == voice_send_mode,
            r.last_enter_at is None,
            r.last_auto_trigger_at is None,
            r.pending_transcripts.deep_view() =~= Seq::<TranscriptModel>::empty(),
            r.status_clear_deadline is None,
            r.current_status is None,
    {
        let r = OverlayState {
            auto_voice_enabled,
            voice_send_mode,
            last_enter_at: Option::None,
            last_auto_trigger_at: Option::None,
            pending_transcripts: Vec::new(),
            status_clear_deadline: Option::None,
            current_status: Option::None,
        };
        proof {
            assert(r.pending_transcripts.deep_view() =~= Seq::<TranscriptModel>::empty());
        }
        r
    }

    /// Shows a status unless it is already showing; arms the clear
    /// deadline; returns the message for the writer.
    pub fn set_status(&mut self, text: &str, clear_after_ms: Option<u64>, now: u64) -> (sent:
        Option<String>)
        ensures
            status_outcome(*old(self), *final(self), text@, clear_after_ms, now, sent),
            same_policy(*old(self), *final(self)),
    {
        let shown = match &self.current_status {
            Option::Some(cur) => {
                let text_owned = text.to_owned();
                cur.eq(&text_owned)
            },
            Option::None => false,
        };
        if shown {
            return Option::None;
        }
        self.current_status = Option::Some(text.to_owned());
        self.status_clear_deadline = match clear_after_ms {
            Option::Some(d) => {
                let deadline = if now <= u64::MAX - d {
                    now + d
                } else {
                    u64::MAX
                };
                Option::Some(deadline)
            },
            Option::None => Option::None,
        };
        Option::Some(text.to_owned())
    }

    /// Records that a submit key reached the child.
    pub fn record_enter_forwarded(&mut self, now: u64)
        ensures
            final(self).last_enter_at == Option::Some(now),
            same_status(*old(self), *final(self)),
            final(self).auto_voice_enabled == old(self).auto_voice_enabled,
            final(self).voice_send_mode == old(self).voice_send_mode,
            final(self).last_auto_trigger_at == old(self).last_auto_trigger_at,
            final(self).pending_transcripts.deep_view() == old(self).pending_transcripts.deep_view(),
    {
        self.last_enter_at = Option::Some(now);
    }

    /// Records the outcome of a transcript delivery: a submit key that
    /// actually went out moves the Enter stamp.
    pub fn record_transcript_outcome(&mut self, sent_newline: bool, now: u64)
        ensures
            final(self).last_enter_at == (if sent_newline {
                Option::Some(now)
            } else {
                old(self).last_enter_at
            }),
            same_status(*old(self), *final(self)),
            final(self).auto_voice_enabled == old(self).auto_voice_enabled,
            final(self).voice_send_mode == old(self).voice_send_mode,
            final(self).last_auto_trigger_at == old(self).last_auto_trigger_at,
            final(self).pending_transcripts.deep_view() == old(self).pending_transcripts.deep_view(),
    {
        if sent_newline {
            self.last_enter_at = Option::Some(now);
        }
    }

    /// Records that auto-voice fired.
    pub fn record_auto_trigger(&mut self, now: u64)
        ensures
            final(self).last_auto_trigger_at == Option::Some(now),
            same_status(*old(self), *final(self)),
            final(self).auto_voice_enabled == old(self).auto_voice_enabled,
            final(self).voice_send_mode == old(self).voice_send_mode,
            final(self).last_enter_at == old(self).last_enter_at,
            final(self).pending_transcripts.deep_view() == old(self).pending_transcripts.deep_view(),
    {
        self.last_auto_trigger_at = Option::Some(now);
    }
}

/// An outgoing transcript matches what `send_transcript` plans for the
/// given text and mode.
pub open spec fn send_plan(r: Option<OutgoingText>, text: Seq<char>, mode: SendMode) -> bool {
    if trim_spec(text).len() == 0 {
        r is None
    } else {
        r matches Some(o) && o.text@ == trim_spec(text) && o.append_newline == (mode is Auto)
    }
}

/// What a queue flush produced.
pub struct FlushPlan {
    /// The batch to type into the child, if any.
    pub send: Option<OutgoingText>,
    /// The "Transcript ready" message for the writer, unless suppressed.
    pub status: Option<String>,
}

/// Announces one transcript delivery and plans what to type: the
/// "Transcript ready" status carries the pipeline label, any drop note
/// and the number of entries still queued; the text goes out trimmed,
/// with a submit key in Auto mode only.
pub fn deliver_transcript(
    state: &mut OverlayState,
    text: &str,
    label: &str,
    mode: SendMode,
    queued_remaining: usize,
    note: Option<&String>,
    now: u64,
) -> (r: FlushPlan)
    ensures
        same_policy(*old(state), *final(state)),
        send_plan(r.send, text@, mode),
        status_outcome(
            *old(state),
            *final(state),
            ready_status_spec(
                labelled_spec(
                    label@,
                    match note {
                        Option::Some(n) => Option::Some(n@),
                        Option::None => Option::None,
                    },
                ),
                queued_remaining as int,
            ),
            Option::Some(2000),
            now,
            r.status,
        ),
{
    let status_text = ready_status(label, note, queued_remaining);
    let status = state.set_status(status_text.as_str(), Option::Some(2000), now);
    let send = send_transcript(text, mode);
    FlushPlan { send, status }
}

/// Flushes the queue when a transcript may be delivered: the front run of
/// same-mode entries is merged and planned for sending, and the ready
/// status announces it with the count of entries still queued.
pub fn try_flush_pending(
    state: &mut OverlayState,
    tracker: &PromptTracker,
    now: u64,
    transcript_idle_timeout: u64,
) -> (r: Option<FlushPlan>)
    ensures
        final(state).auto_voice_enabled == old(state).auto_voice_enabled,
        final(state).voice_send_mode == old(state).voice_send_mode,
        final(state).last_enter_at == old(state).last_enter_at,
        final(state).last_auto_trigger_at == old(state).last_auto_trigger_at,
        old(state).pending_transcripts.deep_view().len() == 0 || !spec_transcript_ready(
            tracker@,
            old(state).last_enter_at,
            now,
            transcript_idle_timeout,
        ) ==> r is None && *final(state) == *old(state),
        old(state).pending_transcripts.deep_view().len() > 0 && spec_transcript_ready(
            tracker@,
            old(state).last_enter_at,
            now,
            transcript_idle_timeout,
        ) ==> ({
            let q = old(state).pending_transcripts.deep_view();
            let k = prefix_len(q, q[0].mode);
            let parts = kept_parts(q.take(k));
            &&& final(state).pending_transcripts.deep_view() == q.skip(k)
            &&& (parts.len() == 0 ==> r is None && same_status(*old(state), *final(state)))
            &&& (parts.len() > 0 ==> (r matches Some(p) && send_plan(
                p.send,
                join_spaces(parts),
                q[0].mode,
            ) && status_outcome(
                *old(state),
                *final(state),
                ready_status_spec(batch_label(kept_sources(q.take(k))), q.skip(k).len() as int),
                Option::Some(2000),
                now,
                p.status,
            )))
        }),
{
    if state.pending_transcripts.len() == 0 {
        return Option::None;
    }
    if !transcript_ready(tracker, state.last_enter_at, now, transcript_idle_timeout) {
        return Option::None;
    }
    let batch = merge_pending_transcripts(&mut state.pending_transcripts);
    match batch {
        Option::None => Option::None,
        Option::Some(b) => {
            let remaining = state.pending_transcripts.len();
            Option::Some(deliver_transcript(
                state,
                b.text.as_str(),
                b.label.as_str(),
                b.mode,
                remaining,
                Option::None,
                now,
            ))
        },
    }
}

/// What handling one worker message produced.
pub struct VoiceMessageEffect {
    /// The message for the writer, unless suppressed.
    pub status: Option<String>,
    /// The transcript to type into the child, if any.
    pub send: Option<OutgoingText>,
    /// Whether the tracker should count this as activity, so auto-voice
    /// can re-arm after the next idle window.
    pub rearm_activity: bool,
}

/// Reacts to one worker message: a transcript is announced and planned
/// for delivery; an empty capture or an error only surfaces a status, and
/// counts as activity while auto-voice is on.
pub fn handle_voice_message(state: &mut OverlayState, message: VoiceJobMessage, now: u64) -> (r:
    VoiceMessageEffect)
    ensures
        same_policy(*old(state), *final(state)),
        r.rearm_activity == (old(state).auto_voice_enabled && !(message is Transcript)),
        message matches VoiceJobMessage::Transcript { text, source, metrics } ==> (send_plan(
            r.send,
            text@,
            old(state).voice_send_mode,
        ) && status_outcome(
            *old(state),
            *final(state),
            ready_status_spec(labelled_spec(source.label_spec(), drop_note_spec(metrics)), 0),
            Option::Some(2000),
            now,
            r.status,
        )),
        message matches VoiceJobMessage::Empty { source, metrics } ==> (r.send is None && (if old(
            state,
        ).auto_voice_enabled {
            status_outcome(
                *old(state),
                *final(state),
                auto_voice_banner_spec(drop_note_spec(metrics)),
                Option::None,
                now,
                r.status,
            )
        } else {
            status_outcome(
                *old(state),
                *final(state),
                no_speech_status_spec(labelled_spec(source.label_spec(), drop_note_spec(metrics))),
                Option::Some(2000),
                now,
                r.status,
            )
        })),
        message is Error ==> (r.send is None && status_outcome(
            *old(state),
            *final(state),
            "Voice capture error (see log)"@,
            Option::Some(2000),
            now,
            r.status,
        )),
{
    match message {
        VoiceJobMessage::Transcript { text, source, metrics } => {
            let label = source.label();
            let note = drop_note(&metrics);
            let mode = state.voice_send_mode;
            let plan = deliver_transcript(
                state,
                text.as_str(),
                label.as_str(),
                mode,
                0,
                note.as_ref(),
                now,
            );
            VoiceMessageEffect { status: plan.status, send: plan.send, rearm_activity: false }
        },
        VoiceJobMessage::Empty { source, metrics } => {
            let note = drop_note(&metrics);
            let status = if state.auto_voice_enabled {
                let banner = match &note {
                    Option::Some(n) => {
                        let mut b = String::from_str("Auto-voice enabled (");
                        b.append(n.as_str());
                        b.append(")");
                        proof {
                            assert(b@ =~= auto_voice_banner_spec(drop_note_spec(metrics)));
                        }
                        b
                    },
                    Option::None => String::from_str("Auto-voice enabled"),
                };
                state.set_status(banner.as_str(), Option::None, now)
            } else {
                let label = source.label();
                let mut text = String::from_str("No speech detected (");
                text.append(label.as_str());
                match &note {
                    Option::Some(n) => {
                        text.append(", ");
                        text.append(n.as_str());
                    },
                    Option::None => {
                    },
                }
                text.append(")");
                proof {
                    assert(text@ =~= no_speech_status_spec(
                        labelled_spec(source.label_spec(), drop_note_spec(metrics)),
                    ));
                }
                state.set_status(text.as_str(), Option::Some(2000), now)
            };
            let rearm = state.auto_voice_enabled;
            VoiceMessageEffect { status, send: Option::None, rearm_activity: rearm }
        },
        VoiceJobMessage::Error(_message) => {
            let status = state.set_status("Voice capture error (see log)", Option::Some(2000), now);
            let rearm = state.auto_voice_enabled;
            VoiceMessageEffect { status, send: Option::None, rearm_activity: rearm }
        },
    }
}

/// What the coordinator's transcript arm produced, in the order the
/// writer should see the messages: the overflow notice, the ready
/// announcement, the queued notice.
pub struct TranscriptArm {
    /// "Transcript queue full (oldest dropped)", when the push dropped.
    pub queue_full_status: Option<String>,
    /// "Transcript ready (...)", when something is delivered.
    pub ready_status: Option<String>,
    /// "Transcript queued (...)", when the transcript waits.
    pub queued_status: Option<String>,
    /// The text to type into the child, if any.
    pub send: Option<OutgoingText>,
    /// Whether the tracker should count the message as activity.
    pub note_activity: bool,
    /// Whether a fresh Auto capture should start (Insert-mode re-arm).
    pub want_capture: bool,
}

/// Reacts to a worker transcript in the coordinator: deliver at once when
/// the child is ready and nothing is queued; otherwise queue it (dropping
/// the oldest beyond the bound) and flush the queue if the child is
/// ready after all.
pub fn on_transcript_message(
    state: &mut OverlayState,
    tracker: &PromptTracker,
    manager_idle: bool,
    text: String,
    source: VoiceCaptureSource,
    metrics: Option<VoiceMetrics>,
    now: u64,
    transcript_idle_timeout: u64,
) -> (r: TranscriptArm)
    ensures
        final(state).auto_voice_enabled == old(state).auto_voice_enabled,
        final(state).voice_send_mode == old(state).voice_send_mode,
        final(state).last_enter_at == old(state).last_enter_at,
        final(state).last_auto_trigger_at == old(state).last_auto_trigger_at,
        r.note_activity == old(state).auto_voice_enabled,
        r.want_capture == (old(state).auto_voice_enabled && old(state).voice_send_mode is Insert
            && final(state).pending_transcripts.deep_view().len() == 0 && manager_idle),
        ({
            let ready = spec_transcript_ready(
                tracker@,
                old(state).last_enter_at,
                now,
                transcript_idle_timeout,
            );
            let q = old(state).pending_transcripts.deep_view();
            let tm = TranscriptModel {
                text: text@,
                source,
                mode: old(state).voice_send_mode,
            };
            &&& (ready && q.len() == 0 ==> ({
                &&& final(state).pending_transcripts.deep_view() == q
                &&& r.queue_full_status is None
                &&& r.queued_status is None
                &&& send_plan(r.send, text@, old(state).voice_send_mode)
                &&& status_outcome(
                    *old(state),
                    *final(state),
                    ready_status_spec(
                        labelled_spec(source.label_spec(), drop_note_spec(metrics)),
                        0,
                    ),
                    Option::Some(2000),
                    now,
                    r.ready_status,
                )
            }))
            &&& (!ready ==> ({
                let pushed = push_transition(q, tm);
                &&& final(state).pending_transcripts.deep_view() == pushed.0
                &&& r.send is None
                &&& r.ready_status is None
                &&& (pushed.1 ==> r.queued_status is None && status_outcome(
                    *old(state),
                    *final(state),
                    "Transcript queue full (oldest dropped)"@,
                    Option::Some(2000),
                    now,
                    r.queue_full_status,
                ))
                &&& (!pushed.1 ==> r.queue_full_status is None && status_outcome(
                    *old(state),
                    *final(state),
                    queued_status_spec(pushed.0.len() as int, drop_note_spec(metrics)),
                    Option::None,
                    now,
                    r.queued_status,
                ))
            }))
            &&& (ready && q.len() > 0 ==> ({
                let pushed = push_transition(q, tm);
                let q1 = pushed.0;
                let k = prefix_len(q1, q1[0].mode);
                let parts = kept_parts(q1.take(k));
                &&& final(state).pending_transcripts.deep_view() == q1.skip(k)
                &&& r.queued_status is None
                &&& (pushed.1 ==> (r.queue_full_status matches Some(m) ==> m@
                    == "Transcript queue full (oldest dropped)"@))
                &&& (!pushed.1 ==> r.queue_full_status is None)
                &&& (parts.len() == 0 ==> r.send is None && r.ready_status is None)
                &&& (parts.len() > 0 ==> (send_plan(r.send, join_spaces(parts), q1[0].mode) && (
                r.ready_status matches Some(m2) ==> m2@ == ready_status_spec(
                    batch_label(kept_sources(q1.take(k))),
                    q1.skip(k).len() as int,
                ))))
            }))
        }),
{
    let ready = transcript_ready(tracker, state.last_enter_at, now, transcript_idle_timeout);
    let note_activity = state.auto_voice_enabled;
    let queue_empty = state.pending_transcripts.len() == 0;
    let mut queue_full_status: Option<String> = Option::None;
    let mut ready_status_msg: Option<String> = Option::None;
    let mut queued_status_msg: Option<String> = Option::None;
    let mut send: Option<OutgoingText> = Option::None;
    if ready && queue_empty {
        let label = source.label();
        let note = drop_note(&metrics);
        let mode = state.voice_send_mode;
        let plan = deliver_transcript(
            state,
            text.as_str(),
            label.as_str(),
            mode,
            0,
            note.as_ref(),
            now,
        );
        ready_status_msg = plan.status;
        send = plan.send;
    } else {
        let entry = PendingTranscript { text, source, mode: state.voice_send_mode };
        let dropped = push_pending_transcript(&mut state.pending_transcripts, entry);
        if dropped {
            queue_full_status = state.set_status(
                "Transcript queue full (oldest dropped)",
                Option::Some(2000),
                now,
            );
        }
        if ready {
            match try_flush_pending(state, tracker, now, transcript_idle_timeout) {
                Option::Some(plan) => {
                    ready_status_msg = plan.status;
                    send = plan.send;
                },
                Option::None => {
                },
            }
        } else if !dropped {
            let note = drop_note(&metrics);
            let queued_text = queued_status(state.pending_transcripts.len(), note.as_ref());
            queued_status_msg = state.set_status(queued_text.as_str(), Option::None, now);
        }
    }
    let want_capture = state.auto_voice_enabled && (match state.voice_send_mode {
        SendMode::Insert => true,
        SendMode::Auto => false,
    }) && state.pending_transcripts.len() == 0 && manager_idle;
    TranscriptArm {
        queue_full_status,
        ready_status: ready_status_msg,
        queued_status: queued_status_msg,
        send,
        note_activity,
        want_capture,
    }
}

/// What the Enter key does while the overlay runs.
#[derive(Debug, Clone, Copy, PartialEq, Eq, Structural)]
pub enum EnterAction {
    /// Stop the native capture early; its transcript still arrives.
    StopEarly,
    /// Cancel the python capture; it cannot stop early.
    CancelPythonCapture,
    /// Forward the Enter key to the child.
    ForwardEnter,
}

/// What the Enter key produced.
pub struct EnterEffect {
    pub action: EnterAction,
    /// The message for the writer, unless suppressed.
    pub status: Option<String>,
}

/// Decides the Enter key.  In Insert mode with a capture running, Enter
/// stops the capture — early on the native pipeline, by cancelling on the
/// python one — instead of reaching the child; otherwise it is forwarded
/// (the host records the forward on a successful write).
pub fn on_enter_key(state: &mut OverlayState, manager: &mut VoiceManager, now: u64) -> (r:
    EnterEffect)
    ensures
        same_policy(*old(state), *final(state)),
        !(old(state).voice_send_mode is Insert && old(manager).job is Some) ==> (r.action
            == EnterAction::ForwardEnter && r.status is None && *final(manager) == *old(manager)
            && *final(state) == *old(state)),
        old(state).voice_send_mode is Insert && old(manager).job is Some && old(
            manager,
        ).active_source == Option::Some(VoiceCaptureSource::Python) ==> (r.action
            == EnterAction::CancelPythonCapture && *final(manager) == cancel_transition(
            *old(manager),
        ).0 && status_outcome(
            *old(state),
            *final(state),
            "Capture cancelled (python fallback cannot stop early)"@,
            Option::Some(3000),
            now,
            r.status,
        )),
        old(state).voice_send_mode is Insert && old(manager).job is Some && old(
            manager,
        ).active_source != Option::Some(VoiceCaptureSource::Python) ==> (r.action
            == EnterAction::StopEarly && *final(manager) == (VoiceManager {
            job: Option::Some(crate::voice::JobState { stop_requested: true }),
            ..*old(manager)
        }) && status_outcome(
            *old(state),
            *final(state),
            "Processing..."@,
            Option::None,
            now,
            r.status,
        )),
{
    let insert_mode = match state.voice_send_mode {
        SendMode::Insert => true,
        SendMode::Auto => false,
    };
    if insert_mode && !manager.is_idle() {
        let python = match manager.active_source() {
            Option::Some(VoiceCaptureSource::Python) => true,
            _ => false,
        };
        if python {
            let _ = manager.cancel_capture();
            let status = state.set_status(
                "Capture cancelled (python fallback cannot stop early)",
                Option::Some(3000),
                now,
            );
            EnterEffect { action: EnterAction::CancelPythonCapture, status }
        } else {
            let _ = manager.request_early_stop();
            let status = state.set_status("Processing...", Option::None, now);
            EnterEffect { action: EnterAction::StopEarly, status }
        }
    } else {
        EnterEffect { action: EnterAction::ForwardEnter, status: Option::None }
    }
}

/// Flips the send mode between Auto and Insert and announces the new one
/// for three seconds.
pub fn toggle_send_mode(state: &mut OverlayState, now: u64) -> (r: Option<String>)
    ensures
        final(state).voice_send_mode == (if old(state).voice_send_mode is Auto {
            SendMode::Insert
        } else {
            SendMode::Auto
        }),
        final(state).auto_voice_enabled == old(state).auto_voice_enabled,
        final(state).last_enter_at == old(state).last_enter_at,
        final(state).last_auto_trigger_at == old(state).last_auto_trigger_at,
        final(state).pending_transcripts.deep_view() == old(state).pending_transcripts.deep_view(),
        status_outcome(
            *old(state),
            *final(state),
            mode_status_spec(final(state).voice_send_mode),
            Option::Some(3000),
            now,
            r,
        ),
{
    state.voice_send_mode = match state.voice_send_mode {
        SendMode::Auto => SendMode::Insert,
        SendMode::Insert => SendMode::Auto,
    };
    let msg = match state.voice_send_mode {
        SendMode::Auto => "Send mode: auto (sends Enter)",
        SendMode::Insert => "Send mode: insert (press Enter to send)",
    };
    state.set_status(msg, Option::Some(3000), now)
}

/// What toggling auto-voice produced.
pub struct AutoVoiceToggle {
    /// The message for the writer, unless suppressed.
    pub status: Option<String>,
    /// Whether a fresh Auto capture should start at once.
    pub want_capture: bool,
}

/// Flips auto-voice.  Enabling shows the sticky banner and asks for a
/// capture if none is running; disabling cancels any running capture and
/// shows an ephemeral notice saying whether one was cancelled.
pub fn toggle_auto_voice(state: &mut OverlayState, manager: &mut VoiceManager, now: u64) -> (r:
    AutoVoiceToggle)
    ensures
        final(state).auto_voice_enabled == !old(state).auto_voice_enabled,
        final(state).voice_send_mode == old(state).voice_send_mode,
        final(state).last_enter_at == old(state).last_enter_at,
        final(state).last_auto_trigger_at == old(state).last_auto_trigger_at,
        final(state).pending_transcripts.deep_view() == old(state).pending_transcripts.deep_view(),
        !old(state).auto_voice_enabled ==> (*final(manager) == *old(manager) && r.want_capture == (
        old(manager).job is None) && status_outcome(
            *old(state),
            *final(state),
            "Auto-voice enabled"@,
            Option::None,
            now,
            r.status,
        )),
        old(state).auto_voice_enabled ==> (!r.want_capture && *final(manager) == cancel_transition(
            *old(manager),
        ).0 && status_outcome(
            *old(state),
            *final(state),
            if old(manager).job is Some {
                "Auto-voice disabled (capture cancelled)"@
            } else {
                "Auto-voice disabled"@
            },
            Option::Some(2000),
            now,
            r.status,
        )),
{
    state.auto_voice_enabled = !state.auto_voice_enabled;
    if state.auto_voice_enabled {
        let status = state.set_status("Auto-voice enabled", Option::None, now);
        let want_capture = manager.is_idle();
        AutoVoiceToggle { status, want_capture }
    } else {
        let cancelled = manager.cancel_capture();
        let msg = if cancelled {
            "Auto-voice disabled (capture cancelled)"
        } else {
            "Auto-voice disabled"
        };
        let status = state.set_status(msg, Option::Some(2000), now);
        AutoVoiceToggle { status, want_capture: false }
    }
}

/// Moves the microphone sensitivity by five dB in the asked direction and
/// announces the clamped threshold for three seconds.
pub fn change_sensitivity(
    state: &mut OverlayState,
    manager: &mut VoiceManager,
    increase: bool,
    now: u64,
) -> (r: Option<String>)
    ensures
        same_policy(*old(state), *final(state)),
        *final(manager) == (VoiceManager {
            vad_threshold_db: crate::voice::clamp_db(
                old(manager).vad_threshold_db + (if increase {
                    5int
                } else {
                    -5int
                }),
            ) as i64,
            ..*old(manager)
        }),
        status_outcome(
            *old(state),
            *final(state),
            sensitivity_status_spec(final(manager).vad_threshold_db as int, increase),
            Option::Some(3000),
            now,
            r,
        ),
{
    let delta: i64 = if increase {
        5
    } else {
        -5
    };
    let db = manager.adjust_sensitivity(delta);
    let text = sensitivity_status(db, increase);
    state.set_status(text.as_str(), Option::Some(3000), now)
}

/// Starts a capture and announces it.  A capture already running is only
/// reported for a manual trigger; a start failure comes back as the
/// manager's error, for the host to log and report.
pub fn start_voice_capture(
    state: &mut OverlayState,
    manager: &mut VoiceManager,
    trigger: VoiceCaptureTrigger,
    transcriber: crate::voice::TranscriberStatus,
    recorder: crate::voice::RecorderStatus,
    now: u64,
) -> (r: Result<Option<String>, VoiceCaptureError>)
    ensures
        same_policy(*old(state), *final(state)),
        old(manager).job is Some && trigger is Manual ==> (*final(manager) == *old(manager) && (
        r matches Ok(status) && status_outcome(
            *old(state),
            *final(state),
            "Voice capture already running"@,
            Option::Some(2000),
            now,
            status,
        ))),
        old(manager).job is Some && trigger is Auto ==> (*final(manager) == *old(manager) && (
        r matches Ok(status) && status is None) && *final(state) == *old(state)),
        old(manager).job is None && !old(manager).no_python_fallback && !(transcriber
            is LoadFailed) || old(manager).job is None && transcriber is Loaded && recorder
            is Ready ==> ({
            let native = transcriber is Loaded && recorder is Ready;
            let src = if native {
                VoiceCaptureSource::Native
            } else {
                VoiceCaptureSource::Python
            };
            &&& final(manager).job == Option::Some(crate::voice::JobState { stop_requested: false })
            &&& final(manager).active_source == Option::Some(src)
            &&& !final(manager).cancel_pending
            &&& (r matches Ok(status) && status_outcome(
                *old(state),
                *final(state),
                listening_status_spec(
                    trigger,
                    src.label_spec(),
                    if transcriber is Loaded && recorder is Unavailable {
                        Option::Some("Recorder unavailable; falling back to python pipeline."@)
                    } else {
                        Option::None
                    },
                ),
                Option::None,
                now,
                status,
            ))
        }),
        old(manager).job is None && transcriber is LoadFailed ==> (r matches Err(e) && e
            == VoiceCaptureError::TranscriberLoadFailed && *final(state) == *old(state)),
        old(manager).job is None && transcriber is NotConfigured && old(
            manager,
        ).no_python_fallback ==> (r matches Err(e) && e == VoiceCaptureError::NativeModelRequired
            && *final(state) == *old(state)),
        old(manager).job is None && transcriber is Loaded && recorder is Unavailable && old(
            manager,
        ).no_python_fallback ==> (r matches Err(e) && e == VoiceCaptureError::RecorderRequired
            && *final(state) == *old(state)),
{
    match manager.start_capture(trigger, transcriber, recorder) {
        Result::Err(e) => Result::Err(e),
        Result::Ok(Option::None) => {
            match trigger {
                VoiceCaptureTrigger::Manual => {
                    let status = state.set_status(
                        "Voice capture already running",
                        Option::Some(2000),
                        now,
                    );
                    Result::Ok(status)
                },
                VoiceCaptureTrigger::Auto => Result::Ok(Option::None),
            }
        },
        Result::Ok(Option::Some(info)) => {
            let text = listening_status(trigger, &info);
            let status = state.set_status(text.as_str(), Option::None, now);
            Result::Ok(status)
        },
    }
}

/// What the status-deadline check produced.
pub struct DeadlineTick {
    /// Whether the writer should clear the status line.
    pub clear: bool,
    /// The re-asserted auto-voice banner, when auto-voice is on and idle.
    pub status: Option<String>,
}

/// Expires the status once its deadline passes: the line is cleared, and
/// with auto-voice on and the manager idle the sticky banner comes back
/// so the user always sees the mode.
pub fn on_status_deadline(state: &mut OverlayState, manager_idle: bool, now: u64) -> (r:
    DeadlineTick)
    ensures
        same_policy(*old(state), *final(state)),
        !(old(state).status_clear_deadline matches Some(d) && now >= d) ==> (!r.clear && r.status
            is None && *final(state) == *old(state)),
        old(state).status_clear_deadline matches Some(d) && now >= d ==> ({
            &&& r.clear
            &&& (old(state).auto_voice_enabled && manager_idle ==> (r.status matches Some(m) && m@
                == "Auto-voice enabled"@ && status_view(final(state).current_status)
                == Option::Some("Auto-voice enabled"@) && final(state).status_clear_deadline
                is None))
            &&& (!(old(state).auto_voice_enabled && manager_idle) ==> (r.status is None
                && final(state).current_status is None && final(state).status_clear_deadline
                is None))
        }),
{
    let expired = match state.status_clear_deadline {
        Option::Some(d) => now >= d,
        Option::None => false,
    };
    if !expired {
        return DeadlineTick { clear: false, status: Option::None };
    }
    state.status_clear_deadline = Option::None;
    state.current_status = Option::None;
    if state.auto_voice_enabled && manager_idle {
        let status = state.set_status("Auto-voice enabled", Option::None, now);
        DeadlineTick { clear: true, status }
    } else {
        DeadlineTick { clear: true, status: Option::None }
    }
}

} // verus!
