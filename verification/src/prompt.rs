//! Prompt tracking.
//!
//! The tracker watches the child's output and decides when the child is
//! sitting at its prompt, ready for a new message.  Output is stripped of
//! ANSI control sequences; printable characters accumulate in a line
//! buffer.  A configured regex, when present, decides what a prompt looks
//! like; otherwise the tracker learns the prompt once, from the line the
//! child leaves on screen when its output goes idle.  Diagnostic messages
//! accumulate in an internal log buffer the host drains and writes out.

use vstd::prelude::*;

use crate::ansi::strip_ansi_preserve_controls;
use crate::ansi::stripped;
use crate::pattern::PromptRegex;
use crate::pattern::prompt_regex_is_match;
use crate::pattern::regex_accepts;
use crate::status::elapsed;
use crate::status::elapsed_ms;
use crate::text::bytes_to_chars;
use crate::text::char_vecs_eq;
use crate::text::chars_of;
use crate::text::chars_of_bytes;
use crate::text::dec_rep;
use crate::text::string_of_ascii_bytes;
use crate::text::trim_chars;
use crate::text::trim_end_chars;
use crate::text::trim_end_spec;
use crate::text::trim_spec;
use crate::text::u64_to_string;

verus! {

/// The tracker's abstract state.
#[verifier::ext_equal]
pub struct TrackerModel {
    /// The configured prompt pattern, when one was given.
    pub pattern: Option<Seq<char>>,
    /// The learned prompt line, when no pattern is configured.
    pub learned: Option<Seq<u8>>,
    /// When a prompt was last seen.
    pub prompt_seen_at: Option<u64>,
    /// When output (or counted activity) last arrived.
    pub last_output_at: u64,
    /// Whether any output arrived at all.
    pub has_seen_output: bool,
    /// The partial line currently on the child's last row.
    pub current_line: Seq<u8>,
    /// The last completed non-blank line.
    pub last_line: Option<Seq<u8>>,
}

/// True for a byte buffer of printable ASCII (including space).
pub open spec fn printable_bytes(s: Seq<u8>) -> bool {
    forall|i: int| 0 <= i < s.len() ==> 0x20 <= #[trigger] s[i] <= 0x7e
}

/// The tracker's line buffers hold printable ASCII only.
pub open spec fn tracker_wf(m: TrackerModel) -> bool {
    &&& printable_bytes(m.current_line)
    &&& (m.learned matches Some(l) ==> printable_bytes(l))
    &&& (m.last_line matches Some(l) ==> printable_bytes(l))
}

/// Whether `line` counts as the prompt: the configured pattern decides if
/// present; otherwise the learned prompt must equal the line up to
/// trailing whitespace; with neither, nothing matches.
pub open spec fn line_matches(m: TrackerModel, line: Seq<char>) -> bool {
    match m.pattern {
        Option::Some(p) => regex_accepts(p, line),
        Option::None => match m.learned {
            Option::Some(lp) => trim_end_spec(line) == trim_end_spec(chars_of_bytes(lp)),
            Option::None => false,
        },
    }
}

/// True for a line that is blank once trimmed.
pub open spec fn line_blank(line: Seq<u8>) -> bool {
    trim_spec(chars_of_bytes(line)).len() == 0
}

/// Completing the current line: a blank line is dropped; otherwise it
/// becomes the last line, and a prompt match stamps the time.
pub open spec fn flush_line_model(m: TrackerModel, now: u64) -> TrackerModel {
    let line = m.current_line;
    let m1 = TrackerModel { current_line: Seq::empty(), ..m };
    if line_blank(line) {
        m1
    } else {
        let m2 = TrackerModel { last_line: Option::Some(line), ..m1 };
        if line_matches(m, chars_of_bytes(line)) {
            TrackerModel { prompt_seen_at: Option::Some(now), ..m2 }
        } else {
            m2
        }
    }
}

/// One stripped byte: newline completes the line, carriage return clears
/// it, tab becomes a space, printable ASCII accumulates, the rest is
/// ignored.
pub open spec fn feed_byte_model(m: TrackerModel, b: u8, now: u64) -> TrackerModel {
    if b == 0x0a {
        flush_line_model(m, now)
    } else if b == 0x0d {
        TrackerModel { current_line: Seq::empty(), ..m }
    } else if b == 0x09 {
        TrackerModel { current_line: m.current_line.push(0x20), ..m }
    } else if 0x20 <= b <= 0x7e {
        TrackerModel { current_line: m.current_line.push(b), ..m }
    } else {
        m
    }
}

/// The stripped bytes folded through [`feed_byte_model`].
pub open spec fn feed_bytes_model(m: TrackerModel, bs: Seq<u8>, now: u64) -> TrackerModel
    decreases bs.len(),
{
    if bs.len() == 0 {
        m
    } else {
        feed_bytes_model(feed_byte_model(m, bs.first(), now), bs.drop_first(), now)
    }
}

/// A whole output chunk: the output stamp is set, then the chunk is
/// stripped of ANSI sequences and folded into the line buffer.
pub open spec fn feed_model(m: TrackerModel, raw: Seq<u8>, now: u64) -> TrackerModel {
    feed_bytes_model(
        TrackerModel { last_output_at: now, has_seen_output: true, ..m },
        stripped(raw),
        now,
    )
}

/// True when a trimmed line is short and ends like a shell prompt.
pub open spec fn looks_like_prompt_spec(line: Seq<char>) -> bool {
    let t = trim_end_spec(line);
    &&& t.len() > 0
    &&& t.len() <= 80
    &&& (t.last() == '>' || t.last() == '\u{203a}' || t.last() == '\u{2bc8}' || t.last() == '$'
        || t.last() == '#')
}

/// The idle candidate line: the partial line when non-empty, else the
/// last completed line, else nothing.
pub open spec fn idle_candidate(m: TrackerModel) -> Seq<u8> {
    if m.current_line.len() > 0 {
        m.current_line
    } else {
        match m.last_line {
            Option::Some(l) => l,
            Option::None => Seq::empty(),
        }
    }
}

/// The idle check: once output has paused long enough, the candidate line
/// either teaches the tracker its prompt (when nothing is configured or
/// learned yet and the line looks like one) or re-stamps a prompt match.
pub open spec fn on_idle_model(m: TrackerModel, now: u64, idle_timeout: u64) -> TrackerModel {
    if !m.has_seen_output {
        m
    } else if elapsed(now, m.last_output_at) < idle_timeout {
        m
    } else {
        let candidate = idle_candidate(m);
        if trim_spec(chars_of_bytes(candidate)).len() == 0 {
            m
        } else if m.learned is None && m.pattern is None {
            if looks_like_prompt_spec(chars_of_bytes(candidate)) {
                TrackerModel {
                    learned: Option::Some(candidate),
                    prompt_seen_at: Option::Some(now),
                    ..m
                }
            } else {
                m
            }
        } else if line_matches(m, chars_of_bytes(candidate)) {
            TrackerModel { prompt_seen_at: Option::Some(now), ..m }
        } else {
            m
        }
    }
}

/// Law: the candidate that taught the tracker its prompt matches from
/// then on — learning sets the learned prompt to the candidate itself,
/// and a line equal to it up to trailing whitespace matches.
pub proof fn lemma_learned_prompt_matches(m: TrackerModel, now: u64, idle_timeout: u64)
    requires
        m.learned is None,
        m.pattern is None,
        m.has_seen_output,
        elapsed(now, m.last_output_at) >= idle_timeout,
        looks_like_prompt_spec(chars_of_bytes(idle_candidate(m))),
        trim_spec(chars_of_bytes(idle_candidate(m))).len() != 0,
    ensures
        on_idle_model(m, now, idle_timeout).learned == Option::Some(idle_candidate(m)),
        on_idle_model(m, now, idle_timeout).prompt_seen_at == Option::Some(now),
        line_matches(on_idle_model(m, now, idle_timeout), chars_of_bytes(idle_candidate(m))),
{
}

/// Law: the prompt is learned at most once per session.  Once a learned
/// prompt is set (or a pattern is configured), neither new output nor a
/// later idle check replaces it.
pub proof fn lemma_learned_prompt_stable(m: TrackerModel, b: u8, now: u64, idle_timeout: u64)
    requires
        m.learned is Some || m.pattern is Some,
    ensures
        feed_byte_model(m, b, now).learned == m.learned,
        on_idle_model(m, now, idle_timeout).learned == m.learned,
{
}

/// Watches the child's output for its prompt line.
#[derive(Debug)]
pub struct PromptTracker {
    pattern: Option<PromptRegex>,
    learned_prompt: Option<Vec<u8>>,
    last_prompt_seen_at: Option<u64>,
    last_output_at: u64,
    has_seen_output: bool,
    current_line: Vec<u8>,
    last_line: Option<Vec<u8>>,
    log: Vec<String>,
}

impl View for PromptTracker {
    type V = TrackerModel;

    closed spec fn view(&self) -> TrackerModel {
        TrackerModel {
            pattern: match self.pattern {
                Option::Some(p) => Option::Some(p.spec_pattern()),
                Option::None => Option::None,
            },
            learned: match self.learned_prompt {
                Option::Some(l) => Option::Some(l@),
                Option::None => Option::None,
            },
            prompt_seen_at: self.last_prompt_seen_at,
            last_output_at: self.last_output_at,
            has_seen_output: self.has_seen_output,
            current_line: self.current_line@,
            last_line: match self.last_line {
                Option::Some(l) => Option::Some(l@),
                Option::None => Option::None,
            },
        }
    }
}

/// Returns whether a trimmed line is short and ends like a shell prompt
/// (`>`, `$`, `#` or a prompt arrow).
pub fn looks_like_prompt(line: &str) -> (r: bool)
    ensures
        r == looks_like_prompt_spec(line@),
{
    let chars = chars_of(line);
    let t = trim_end_chars(&chars);
    if t.len() == 0 || t.len() > 80 {
        return false;
    }
    let last = t[t.len() - 1];
    proof {
        assert(t@.last() == t@[t@.len() - 1]);
    }
    last == '>' || last == '\u{203a}' || last == '\u{2bc8}' || last == '$' || last == '#'
}

impl PromptTracker {
    /// A fresh tracker: nothing seen, nothing learned.
    pub fn new(pattern: Option<PromptRegex>, now: u64) -> (r: PromptTracker)
        ensures
            r@ == (TrackerModel {
                pattern: match pattern {
                    Option::Some(p) => Option::Some(p.spec_pattern()),
                    Option::None => Option::None,
                },
                learned: Option::None,
                prompt_seen_at: Option::None,
                last_output_at: now,
                has_seen_output: false,
                current_line: Seq::empty(),
                last_line: Option::None,
            }),
            tracker_wf(r@),
            r.log_view() =~= Seq::<String>::empty(),
    {
        let r = PromptTracker {
            pattern,
            learned_prompt: Option::None,
            last_prompt_seen_at: Option::None,
            last_output_at: now,
            has_seen_output: false,
            current_line: Vec::new(),
            last_line: Option::None,
            log: Vec::new(),
        };
        proof {
            assert(r@ =~= (TrackerModel {
                pattern: match pattern {
                    Option::Some(p) => Option::Some(p.spec_pattern()),
                    Option::None => Option::None,
                },
                learned: Option::None,
                prompt_seen_at: Option::None,
                last_output_at: now,
                has_seen_output: false,
                current_line: Seq::empty(),
                last_line: Option::None,
            }));
        }
        r
    }

    /// The diagnostic messages accumulated so far.
    pub closed spec fn log_view(&self) -> Seq<String> {
        self.log@
    }

    /// Hands the accumulated diagnostic messages to the host and clears
    /// the buffer.
    pub fn take_log(&mut self) -> (r: Vec<String>)
        ensures
            r@ == old(self).log_view(),
            final(self).log_view() =~= Seq::<String>::empty(),
            final(self)@ == old(self)@,
    {
        let mut taken: Vec<String> = Vec::new();
        core::mem::swap(&mut taken, &mut self.log);
        taken
    }

    /// Returns whether `line` counts as the prompt.
    pub fn matches_prompt(&self, line: &str) -> (r: bool)
        requires
            tracker_wf(self@),
        ensures
            r == line_matches(self@, line@),
    {
        match &self.pattern {
            Option::Some(re) => prompt_regex_is_match(re, line),
            Option::None => {
                match &self.learned_prompt {
                    Option::Some(lp) => {
                        let lchars = chars_of(line);
                        let ltrim = trim_end_chars(&lchars);
                        let pchars = bytes_to_chars(lp);
                        let ptrim = trim_end_chars(&pchars);
                        char_vecs_eq(&ltrim, &ptrim)
                    },
                    Option::None => false,
                }
            },
        }
    }

    /// Records a prompt sighting and logs it with its reason.
    pub fn update_prompt_seen(&mut self, now: u64, line: &str, reason: &str)
        ensures
            final(self)@ == (TrackerModel { prompt_seen_at: Option::Some(now), ..old(self)@ }),
            final(self).log_view().len() == old(self).log_view().len() + 1,
            old(self).log_view().is_prefix_of(final(self).log_view()),
            final(self).log_view().last()@ == "prompt_detected|reason="@ + reason@ + "|line="@
                + line@,
    {
        self.last_prompt_seen_at = Option::Some(now);
        let mut msg = String::from_str("prompt_detected|reason=");
        msg.append(reason);
        msg.append("|line=");
        msg.append(line);
        self.log.push(msg);
        proof {
            assert(self@ =~= (TrackerModel { prompt_seen_at: Option::Some(now), ..old(self)@ }));
            assert(old(self).log_view().is_prefix_of(self.log_view()));
        }
    }

    /// Completes the current line (on a newline or when asked): blank
    /// lines vanish, others become the last line and are matched against
    /// the prompt.
    fn flush_line(&mut self, now: u64, reason: &str)
        requires
            tracker_wf(old(self)@),
        ensures
            final(self)@ == flush_line_model(old(self)@, now),
            tracker_wf(final(self)@),
            old(self).log_view().is_prefix_of(final(self).log_view()),
    {
        let line = self.current_line.split_off(0);
        proof {
            assert(self.current_line@ =~= Seq::<u8>::empty());
            assert(line@ =~= old(self)@.current_line);
        }
        let line_str = string_of_ascii_bytes(&line);
        let lchars = bytes_to_chars(&line);
        let ltrim = trim_chars(&lchars);
        if ltrim.len() == 0 {
            proof {
                assert(self@ =~= flush_line_model(old(self)@, now));
            }
            return;
        }
        let matched = self.matches_prompt(line_str.as_str());
        self.last_line = Option::Some(line);
        if matched {
            self.update_prompt_seen(now, line_str.as_str(), reason);
            proof {
                assert(self@ =~= flush_line_model(old(self)@, now));
            }
        } else {
            proof {
                assert(self@ =~= flush_line_model(old(self)@, now));
            }
        }
    }

    /// Feeds one chunk of PTY output through the ANSI stripper into the
    /// line buffer, completing lines as newlines arrive.
    pub fn feed_output(&mut self, bytes: &[u8], now: u64)
        requires
            tracker_wf(old(self)@),
        ensures
            final(self)@ == feed_model(old(self)@, bytes@, now),
            tracker_wf(final(self)@),
            old(self).log_view().is_prefix_of(final(self).log_view()),
    {
        self.last_output_at = now;
        self.has_seen_output = true;
        let ghost m0 = self@;
        proof {
            assert(m0 =~= (TrackerModel {
                last_output_at: now,
                has_seen_output: true,
                ..old(self)@
            }));
        }
        let cleaned = strip_ansi_preserve_controls(bytes);
        proof {
            assert(cleaned@.take(0) =~= Seq::<u8>::empty());
        }
        let ghost log0 = self.log_view();
        let mut i: usize = 0;
        while i < cleaned.len()
            invariant
                i <= cleaned@.len(),
                self@ == feed_bytes_model(m0, cleaned@.take(i as int), now),
                tracker_wf(self@),
                log0.is_prefix_of(self.log_view()),
            decreases cleaned@.len() - i,
        {
            let b = cleaned[i];
            let ghost m_pre = self@;
            if b == 0x0a {
                self.flush_line(now, "line_complete");
            } else if b == 0x0d {
                self.current_line.clear();
            } else if b == 0x09 {
                self.current_line.push(0x20);
            } else if 0x20 <= b && b <= 0x7e {
                self.current_line.push(b);
            }
            proof {
                assert(self@ =~= feed_byte_model(m_pre, b, now));
                lemma_feed_bytes_snoc(m0, cleaned@.take(i as int), b, now);
                assert(cleaned@.take(i + 1) =~= cleaned@.take(i as int).push(b));
            }
            i = i + 1;
        }
        proof {
            assert(cleaned@.take(cleaned@.len() as int) =~= cleaned@);
        }
    }

    /// The idle check: learns the prompt from the candidate line, or
    /// re-stamps a match, once output has paused for `idle_timeout`.
    pub fn on_idle(&mut self, now: u64, idle_timeout: u64)
        requires
            tracker_wf(old(self)@),
        ensures
            final(self)@ == on_idle_model(old(self)@, now, idle_timeout),
            tracker_wf(final(self)@),
            old(self).log_view().is_prefix_of(final(self).log_view()),
    {
        if !self.has_seen_output {
            return;
        }
        if elapsed_ms(now, self.last_output_at) < idle_timeout {
            return;
        }
        let candidate: Vec<u8> = if self.current_line.len() > 0 {
            crate::text::copy_bytes(&self.current_line)
        } else {
            match &self.last_line {
                Option::Some(l) => crate::text::copy_bytes(l),
                Option::None => Vec::new(),
            }
        };
        proof {
            assert(candidate@ =~= idle_candidate(self@));
        }
        let cchars = bytes_to_chars(&candidate);
        let ctrim = trim_chars(&cchars);
        if ctrim.len() == 0 {
            return;
        }
        let cand_str = string_of_ascii_bytes(&candidate);
        let learned_absent = self.learned_prompt.is_none();
        let pattern_absent = self.pattern.is_none();
        if learned_absent && pattern_absent {
            if !looks_like_prompt(cand_str.as_str()) {
                return;
            }
            self.learned_prompt = Option::Some(candidate);
            self.last_prompt_seen_at = Option::Some(now);
            let mut msg = String::from_str("prompt_learned|line=");
            msg.append(cand_str.as_str());
            self.log.push(msg);
            proof {
                assert(self@ =~= on_idle_model(old(self)@, now, idle_timeout));
                assert(old(self).log_view().is_prefix_of(self.log_view()));
            }
            return;
        }
        if self.matches_prompt(cand_str.as_str()) {
            self.update_prompt_seen(now, cand_str.as_str(), "idle_match");
            proof {
                assert(self@ =~= on_idle_model(old(self)@, now, idle_timeout));
            }
        }
    }

    /// The partial line currently on the child's last row.
    pub fn current_line_as_string(&self) -> (r: String)
        requires
            tracker_wf(self@),
        ensures
            r@ == chars_of_bytes(self@.current_line),
    {
        string_of_ascii_bytes(&self.current_line)
    }

    /// The last completed non-blank line.
    pub fn last_line(&self) -> (r: Option<String>)
        requires
            tracker_wf(self@),
        ensures
            match self@.last_line {
                Option::Some(l) => r matches Some(s) && s@ == chars_of_bytes(l),
                Option::None => r is None,
            },
    {
        match &self.last_line {
            Option::Some(l) => Option::Some(string_of_ascii_bytes(l)),
            Option::None => Option::None,
        }
    }

    /// The learned prompt line, if any.
    pub fn learned_prompt(&self) -> (r: Option<String>)
        requires
            tracker_wf(self@),
        ensures
            match self@.learned {
                Option::Some(l) => r matches Some(s) && s@ == chars_of_bytes(l),
                Option::None => r is None,
            },
    {
        match &self.learned_prompt {
            Option::Some(l) => Option::Some(string_of_ascii_bytes(l)),
            Option::None => Option::None,
        }
    }

    /// When a prompt was last seen.
    pub fn last_prompt_seen_at(&self) -> (r: Option<u64>)
        ensures
            r == self@.prompt_seen_at,
    {
        self.last_prompt_seen_at
    }

    /// When output last arrived.
    pub fn last_output_at(&self) -> (r: u64)
        ensures
            r == self@.last_output_at,
    {
        self.last_output_at
    }

    /// Counts non-output activity (an empty capture, say) as output, so
    /// idle windows restart.
    pub fn note_activity(&mut self, now: u64)
        ensures
            final(self)@ == (TrackerModel {
                last_output_at: now,
                has_seen_output: true,
                ..old(self)@
            }),
            final(self).log_view() == old(self).log_view(),
    {
        self.last_output_at = now;
        self.has_seen_output = true;
        proof {
            assert(self@ =~= (TrackerModel {
                last_output_at: now,
                has_seen_output: true,
                ..old(self)@
            }));
        }
    }

    /// True once output has paused for `idle_timeout` milliseconds.
    pub fn idle_ready(&self, now: u64, idle_timeout: u64) -> (r: bool)
        ensures
            r == (elapsed(now, self@.last_output_at) >= idle_timeout),
    {
        elapsed_ms(now, self.last_output_at) >= idle_timeout
    }

    /// Whether any output arrived at all.
    pub fn has_seen_output(&self) -> (r: bool)
        ensures
            r == self@.has_seen_output,
    {
        self.has_seen_output
    }
}

/// Unfolds `feed_bytes_model` from the right.
proof fn lemma_feed_bytes_snoc(m: TrackerModel, bs: Seq<u8>, b: u8, now: u64)
    ensures
        feed_bytes_model(m, bs.push(b), now) == feed_byte_model(feed_bytes_model(m, bs, now), b, now),
    decreases bs.len(),
{
    reveal_with_fuel(feed_bytes_model, 3);
    if bs.len() == 0 {
        assert(bs.push(b).first() == b);
        assert(bs.push(b).drop_first() =~= Seq::<u8>::empty());
    } else {
        assert(bs.push(b).first() == bs.first());
        assert(bs.push(b).drop_first() =~= bs.drop_first().push(b));
        lemma_feed_bytes_snoc(feed_byte_model(m, bs.first(), now), bs.drop_first(), b, now);
    }
}

/// Most bytes the prompt log may reach before it restarts (5 MiB).
pub const PROMPT_LOG_MAX_BYTES: u64 = 5 * 1024 * 1024;

/// One line of the prompt diagnostic log: `[<unix-seconds>] <message>`
/// and a newline.
pub fn format_log_line(unix_secs: u64, message: &str) -> (r: String)
    ensures
        r@ == seq!['['] + dec_rep(unix_secs as nat) + "] "@ + message@ + "\n"@,
{
    let mut out = String::from_str("[");
    let digits = u64_to_string(unix_secs);
    out.append(digits.as_str());
    out.append("] ");
    out.append(message);
    out.append("\n");
    proof {
        reveal_strlit("[");
        assert(out@ =~= seq!['['] + dec_rep(unix_secs as nat) + "] "@ + message@ + "\n"@);
    }
    out
}

/// The append budget of the prompt log file.  The host does the file I/O;
/// this tracks how many bytes have been written and says when the file
/// must restart.
#[derive(Debug, Clone, Copy, PartialEq, Eq, Structural)]
pub struct LogBudget {
    pub bytes_written: u64,
}

/// Saturating addition on byte counts.
pub open spec fn sat_add(a: u64, b: u64) -> u64 {
    if a + b > u64::MAX {
        u64::MAX
    } else {
        (a + b) as u64
    }
}

impl LogBudget {
    /// A budget for a file that already holds `existing` bytes; a file
    /// already over the limit starts from nothing.
    pub fn new(existing: u64) -> (r: LogBudget)
        ensures
            existing > PROMPT_LOG_MAX_BYTES ==> r.bytes_written == 0,
            existing <= PROMPT_LOG_MAX_BYTES ==> r.bytes_written == existing,
    {
        if existing > PROMPT_LOG_MAX_BYTES {
            LogBudget { bytes_written: 0 }
        } else {
            LogBudget { bytes_written: existing }
        }
    }

    /// True when writing `next_len` more bytes would push the file over
    /// its limit, so it must be truncated first.
    pub fn must_truncate(&self, next_len: u64) -> (r: bool)
        ensures
            r == (sat_add(self.bytes_written, next_len) > PROMPT_LOG_MAX_BYTES),
    {
        let total = if self.bytes_written <= u64::MAX - next_len {
            self.bytes_written + next_len
        } else {
            u64::MAX
        };
        total > PROMPT_LOG_MAX_BYTES
    }

    /// Records that the file was truncated and restarted.
    pub fn reset(&mut self)
        ensures
            final(self).bytes_written == 0,
    {
        self.bytes_written = 0;
    }

    /// Records a successful write of `len` bytes.
    pub fn record_write(&mut self, len: u64)
        ensures
            final(self).bytes_written == sat_add(old(self).bytes_written, len),
    {
        if self.bytes_written <= u64::MAX - len {
            self.bytes_written = self.bytes_written + len;
        } else {
            self.bytes_written = u64::MAX;
        }
    }
}

} // verus!
