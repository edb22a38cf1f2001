//! Transcript queueing and batching.
//!
//! Transcripts that cannot be delivered at once wait in a bounded FIFO
//! queue.  Pushing onto a full queue drops the oldest entry.  When the
//! child becomes ready, contiguous entries sharing the front entry's send
//! mode are merged into one batch: blank entries are skipped, the rest are
//! joined with single spaces, and the batch is labelled by the pipeline
//! that produced it (or as mixed when several did).

use vstd::prelude::*;

use crate::text::trim_spec;
use crate::text::trim_str;
use crate::voice::VoiceCaptureSource;

verus! {

/// How a delivered transcript is submitted to the child.
#[derive(Debug, Clone, Copy, PartialEq, Eq, Structural)]
pub enum SendMode {
    /// Deliver the text and press Enter for the user.
    Auto,
    /// Leave the text in the child's input buffer.
    Insert,
}

/// Most transcripts the queue may hold; the oldest is dropped beyond this.
pub const MAX_PENDING_TRANSCRIPTS: usize = 5;

/// A transcript waiting for delivery.
#[derive(Debug)]
pub struct PendingTranscript {
    pub text: String,
    pub source: VoiceCaptureSource,
    pub mode: SendMode,
}

/// The mathematical form of a queued transcript.
#[verifier::ext_equal]
pub struct TranscriptModel {
    pub text: Seq<char>,
    pub source: VoiceCaptureSource,
    pub mode: SendMode,
}

impl DeepView for PendingTranscript {
    type V = TranscriptModel;

    open spec fn deep_view(&self) -> TranscriptModel {
        TranscriptModel { text: self.text@, source: self.source, mode: self.mode }
    }
}

/// A batch of merged transcripts ready for delivery.
#[derive(Debug)]
pub struct PendingBatch {
    pub text: String,
    pub label: String,
    pub mode: SendMode,
}

/// The queue after a push: a full queue loses its oldest entry.  The
/// second component reports whether an entry was dropped.
pub open spec fn push_transition(q: Seq<TranscriptModel>, t: TranscriptModel) -> (
    Seq<TranscriptModel>,
    bool,
) {
    if q.len() >= MAX_PENDING_TRANSCRIPTS {
        (q.drop_first().push(t), true)
    } else {
        (q.push(t), false)
    }
}

/// Law: the queue bound.  After a push the queue never exceeds its
/// capacity; a push when full drops exactly the oldest entry and keeps the
/// order of the remaining entries.
pub fn push_pending_transcript(pending: &mut Vec<PendingTranscript>, transcript: PendingTranscript)
    -> (dropped: bool)
    ensures
        final(pending).deep_view() =~= push_transition(
            old(pending).deep_view(),
            transcript.deep_view(),
        ).0,
        dropped == push_transition(old(pending).deep_view(), transcript.deep_view()).1,
        old(pending)@.len() <= MAX_PENDING_TRANSCRIPTS ==> final(pending)@.len()
            <= MAX_PENDING_TRANSCRIPTS,
{
    let ghost q0 = pending.deep_view();
    if pending.len() >= MAX_PENDING_TRANSCRIPTS {
        let _ = pending.remove(0);
        proof {
            assert(pending.deep_view() =~~= q0.drop_first());
        }
        let ghost q1 = pending.deep_view();
        pending.push(transcript);
        proof {
            assert(pending.deep_view() =~~= q1.push(transcript.deep_view()));
        }
        true
    } else {
        pending.push(transcript);
        proof {
            assert(pending.deep_view() =~~= q0.push(transcript.deep_view()));
        }
        false
    }
}

/// How many entries at the front of the queue share the given mode.
pub open spec fn prefix_len(q: Seq<TranscriptModel>, mode: SendMode) -> int
    decreases q.len(),
{
    if q.len() == 0 || q[0].mode != mode {
        0
    } else {
        1 + prefix_len(q.drop_first(), mode)
    }
}

/// The trimmed, non-blank texts of the given entries, in order.
pub open spec fn kept_parts(s: Seq<TranscriptModel>) -> Seq<Seq<char>>
    decreases s.len(),
{
    if s.len() == 0 {
        Seq::empty()
    } else {
        let t = trim_spec(s[0].text);
        let rest = kept_parts(s.drop_first());
        if t.len() > 0 {
            seq![t] + rest
        } else {
            rest
        }
    }
}

/// The sources of the trimmed, non-blank entries, in order.
pub open spec fn kept_sources(s: Seq<TranscriptModel>) -> Seq<VoiceCaptureSource>
    decreases s.len(),
{
    if s.len() == 0 {
        Seq::empty()
    } else {
        let t = trim_spec(s[0].text);
        let rest = kept_sources(s.drop_first());
        if t.len() > 0 {
            seq![s[0].source] + rest
        } else {
            rest
        }
    }
}

/// The parts joined by single spaces.
pub open spec fn join_spaces(parts: Seq<Seq<char>>) -> Seq<char>
    decreases parts.len(),
{
    if parts.len() == 0 {
        Seq::empty()
    } else if parts.len() == 1 {
        parts[0]
    } else {
        parts[0] + seq![' '] + join_spaces(parts.drop_first())
    }
}

/// The label of a batch: the common pipeline's label, or "Mixed pipelines".
pub open spec fn batch_label(sources: Seq<VoiceCaptureSource>) -> Seq<char> {
    if forall|i: int| 0 <= i < sources.len() ==> #[trigger] sources[i] == sources[0] {
        sources[0].label_spec()
    } else {
        "Mixed pipelines"@
    }
}

/// The same-mode prefix is well formed: every entry in it has the front
/// entry's mode, and the first entry after it (if any) does not.
pub proof fn lemma_prefix_len_facts(q: Seq<TranscriptModel>, mode: SendMode)
    ensures
        0 <= prefix_len(q, mode) <= q.len(),
        forall|i: int| 0 <= i < prefix_len(q, mode) ==> q[i].mode == mode,
        prefix_len(q, mode) < q.len() ==> q[prefix_len(q, mode)].mode != mode,
    decreases q.len(),
{
    if q.len() == 0 || q[0].mode != mode {
    } else {
        lemma_prefix_len_facts(q.drop_first(), mode);
        assert forall|i: int| 0 <= i < prefix_len(q, mode) implies q[i].mode == mode by {
            if i > 0 {
                assert(q.drop_first()[i - 1] == q[i]);
            }
        }
        if prefix_len(q, mode) < q.len() {
            assert(q.drop_first()[prefix_len(q, mode) - 1] == q[prefix_len(q, mode)]);
        }
    }
}

/// A position that looks like the end of the same-mode prefix is the end.
proof fn lemma_prefix_len_unique(q: Seq<TranscriptModel>, mode: SendMode, j: int)
    requires
        0 <= j <= q.len(),
        forall|i: int| 0 <= i < j ==> q[i].mode == mode,
        j == q.len() || q[j].mode != mode,
    ensures
        j == prefix_len(q, mode),
    decreases q.len(),
{
    if q.len() == 0 {
    } else if j == 0 {
        if q[0].mode == mode {
            assert(q[prefix_len(q, mode)].mode != mode || prefix_len(q, mode) == q.len());
            lemma_prefix_len_facts(q, mode);
            assert(false);
        }
    } else {
        assert(q[0].mode == mode);
        assert forall|i: int| 0 <= i < j - 1 implies q.drop_first()[i].mode == mode by {
            assert(q.drop_first()[i] == q[i + 1]);
        }
        if j - 1 < q.drop_first().len() {
            assert(q.drop_first()[j - 1] == q[j]);
        }
        lemma_prefix_len_unique(q.drop_first(), mode, j - 1);
    }
}

proof fn lemma_kept_snoc(s: Seq<TranscriptModel>, x: TranscriptModel)
    ensures
        kept_parts(s.push(x)) =~= kept_parts(s) + (if trim_spec(x.text).len() > 0 {
            seq![trim_spec(x.text)]
        } else {
            Seq::<Seq<char>>::empty()
        }),
        kept_sources(s.push(x)) =~= kept_sources(s) + (if trim_spec(x.text).len() > 0 {
            seq![x.source]
        } else {
            Seq::<VoiceCaptureSource>::empty()
        }),
    decreases s.len(),
{
    reveal_with_fuel(kept_parts, 3);
    reveal_with_fuel(kept_sources, 3);
    if s.len() == 0 {
        assert(s.push(x)[0] == x);
        assert(s.push(x).drop_first() =~= Seq::<TranscriptModel>::empty());
        assert(kept_parts(Seq::<TranscriptModel>::empty()) =~= Seq::<Seq<char>>::empty());
        assert(kept_sources(Seq::<TranscriptModel>::empty()) =~= Seq::<
            VoiceCaptureSource,
        >::empty());
    } else {
        assert(s.push(x).drop_first() =~= s.drop_first().push(x));
        assert(s.push(x)[0] == s[0]);
        lemma_kept_snoc(s.drop_first(), x);
    }
}

proof fn lemma_join_snoc(parts: Seq<Seq<char>>, x: Seq<char>)
    ensures
        join_spaces(parts.push(x)) =~= (if parts.len() == 0 {
            x
        } else {
            join_spaces(parts) + seq![' '] + x
        }),
    decreases parts.len(),
{
    if parts.len() == 0 {
        assert(parts.push(x)[0] == x);
    } else {
        assert(parts.push(x).drop_first() =~= parts.drop_first().push(x));
        assert(parts.push(x)[0] == parts[0]);
        lemma_join_snoc(parts.drop_first(), x);
        if parts.len() == 1 {
            assert(parts.drop_first().len() == 0);
            assert(join_spaces(parts) == parts[0]);
        }
    }
}

/// Law: batch mode purity.  A merge takes exactly the front run of
/// same-mode entries: each contributing entry has the front entry's mode,
/// and the first entry left behind (if any) has a different one.
pub proof fn lemma_batch_mode_purity(q: Seq<TranscriptModel>)
    requires
        q.len() > 0,
    ensures
        forall|i: int| 0 <= i < prefix_len(q, q[0].mode) ==> (#[trigger] q[i]).mode == q[0].mode,
        prefix_len(q, q[0].mode) < q.len() ==> q[prefix_len(q, q[0].mode)].mode != q[0].mode,
        1 <= prefix_len(q, q[0].mode) <= q.len(),
{
    lemma_prefix_len_facts(q, q[0].mode);
}

/// Merges the front run of same-mode transcripts into one batch.  The
/// taken entries leave the queue whether or not they contribute text;
/// entries of a different mode stay queued.  Returns `None` when the queue
/// is empty or the whole run is blank.
pub fn merge_pending_transcripts(pending: &mut Vec<PendingTranscript>) -> (r: Option<PendingBatch>)
    ensures
        old(pending)@.len() == 0 ==> r is None && *final(pending) == *old(pending),
        old(pending)@.len() > 0 ==> ({
            let q = old(pending).deep_view();
            let k = prefix_len(q, q[0].mode);
            let parts = kept_parts(q.take(k));
            &&& final(pending).deep_view() =~= q.skip(k)
            &&& (parts.len() == 0 <==> r is None)
            &&& (r matches Some(b) ==> b.text@ == join_spaces(parts) && b.label@ == batch_label(
                kept_sources(q.take(k)),
            ) && b.mode == q[0].mode)
        }),
{
    if pending.len() == 0 {
        return Option::None;
    }
    let ghost q = pending.deep_view();
    let mode = pending[0].mode;
    proof {
        lemma_prefix_len_facts(q, mode);
    }
    let mut k: usize = 0;
    while k < pending.len() && pending[k].mode == mode
        invariant
            pending.deep_view() == q,
            k <= q.len(),
            forall|i: int| 0 <= i < k ==> (#[trigger] q[i]).mode == mode,
        decreases q.len() - k,
    {
        proof {
            assert(q[k as int] == pending@[k as int].deep_view());
        }
        k = k + 1;
    }
    proof {
        if (k as int) < q.len() {
            assert(q[k as int] == pending@[k as int].deep_view());
        }
        lemma_prefix_len_unique(q, mode, k as int);
        assert(q.take(0) =~= Seq::<TranscriptModel>::empty());
    }
    let mut parts: Vec<String> = Vec::new();
    let mut sources: Vec<VoiceCaptureSource> = Vec::new();
    let mut i: usize = 0;
    while i < k
        invariant
            pending.deep_view() == q,
            i <= k <= q.len(),
            parts@.len() == sources@.len(),
            parts.deep_view() =~= kept_parts(q.take(i as int)),
            sources@ =~= kept_sources(q.take(i as int)),
        decreases k - i,
    {
        proof {
            assert(q[i as int] == pending@[i as int].deep_view());
        }
        let trimmed = trim_str(pending[i].text.as_str());
        if !trimmed.as_str().is_empty() {
            let ghost parts0 = parts.deep_view();
            parts.push(trimmed);
            sources.push(pending[i].source);
            proof {
                assert(parts.deep_view() =~~= parts0.push(trim_spec(q[i as int].text)));
            }
        }
        proof {
            assert(q.take(i + 1) =~= q.take(i as int).push(q[i as int]));
            lemma_kept_snoc(q.take(i as int), q[i as int]);
            assert(parts.deep_view() =~= kept_parts(q.take(i + 1)));
            assert(sources@ =~= kept_sources(q.take(i + 1)));
        }
        i = i + 1;
    }
    let tail = pending.split_off(k);
    *pending = tail;
    proof {
        assert forall|t: int| 0 <= t < pending.deep_view().len() implies pending.deep_view()[t]
            == q.skip(k as int)[t] by {
            vstd::seq_lib::lemma_seq_skip_index(q, k as int, t);
        }
        assert(pending.deep_view() =~= q.skip(k as int));
    }
    if parts.len() == 0 {
        return Option::None;
    }
    let mut text = String::new();
    let mut i2: usize = 0;
    while i2 < parts.len()
        invariant
            i2 <= parts@.len(),
            parts@.len() > 0,
            text@ =~= join_spaces(parts.deep_view().take(i2 as int)),
        decreases parts@.len() - i2,
    {
        if i2 > 0 {
            crate::text::push_char(&mut text, ' ');
        }
        text.append(parts[i2].as_str());
        proof {
            assert(parts.deep_view().take(i2 + 1) =~= parts.deep_view().take(i2 as int).push(
                parts@[i2 as int]@,
            ));
            lemma_join_snoc(parts.deep_view().take(i2 as int), parts@[i2 as int]@);
        }
        i2 = i2 + 1;
    }
    proof {
        assert(parts.deep_view().take(parts@.len() as int) =~= parts.deep_view());
    }
    let mut all_same = true;
    let first_source = sources[0];
    let mut sidx: usize = 1;
    while sidx < sources.len()
        invariant
            sources@.len() > 0,
            1 <= sidx <= sources@.len(),
            first_source == sources@[0],
            all_same == (forall|t: int| 0 <= t < sidx ==> #[trigger] sources@[t] == sources@[0]),
        decreases sources@.len() - sidx,
    {
        if !(sources[sidx] == first_source) {
            all_same = false;
        }
        sidx = sidx + 1;
    }
    let label = if all_same {
        first_source.label()
    } else {
        String::from_str("Mixed pipelines")
    };
    Option::Some(PendingBatch { text, label, mode })
}

/// What a transcript delivery sends to the child.
#[derive(Debug)]
pub struct OutgoingText {
    /// The trimmed transcript text.
    pub text: String,
    /// Whether a submit key follows the text (Auto mode).
    pub append_newline: bool,
}

/// Plans the delivery of one transcript: the text is trimmed, a blank
/// transcript is not sent at all, and only the Auto mode appends the
/// submit key.
pub fn send_transcript(text: &str, mode: SendMode) -> (r: Option<OutgoingText>)
    ensures
        (trim_spec(text@).len() == 0) <==> (r is None),
        r matches Some(o) ==> o.text@ == trim_spec(text@) && o.append_newline == (mode is Auto),
{
    let trimmed = trim_str(text);
    if trimmed.as_str().is_empty() {
        return Option::None;
    }
    let append_newline = match mode {
        SendMode::Auto => true,
        SendMode::Insert => false,
    };
    Option::Some(OutgoingText { text: trimmed, append_newline })
}

} // verus!
