//! Status-line rendering.
//!
//! A one-line status is drawn on the terminal's bottom row without
//! disturbing the child's screen: the cursor is saved, the last row
//! cleared and written, the cursor restored.  Drawing is deferred while
//! PTY output is streaming so the child's screen does not tear: a pending
//! status is painted once the output has paused for 50 ms, or at the
//! latest 500 ms after the previous paint.

use vstd::prelude::*;

use crate::text::chars_of;
use crate::text::dec_rep;
use crate::text::is_graphic_or_space;
use crate::text::graphic_or_space;
use crate::text::string_from_chars;

verus! {

/// Milliseconds from `since` to `now`, zero when `since` is later.
pub open spec fn elapsed(now: u64, since: u64) -> int {
    if now >= since {
        now - since
    } else {
        0
    }
}

/// Executable form of [`elapsed`].
pub fn elapsed_ms(now: u64, since: u64) -> (r: u64)
    ensures
        r == elapsed(now, since),
{
    if now >= since {
        now - since
    } else {
        0
    }
}

/// Sanitisation: every character that is not printable ASCII or space
/// becomes a space.
pub open spec fn sanitize_spec(s: Seq<char>) -> Seq<char> {
    s.map_values(|c: char| if is_graphic_or_space(c) { c } else { ' ' })
}

/// Truncation to at most `max` characters.
pub open spec fn truncate_spec(s: Seq<char>, max: int) -> Seq<char> {
    if s.len() <= max {
        s
    } else {
        s.take(max)
    }
}

/// Replaces every character that is not printable ASCII or space by a
/// space, keeping the length.
pub fn sanitize_status(text: &str) -> (r: String)
    ensures
        r@ == sanitize_spec(text@),
{
    let chars = chars_of(text);
    let mut out: Vec<char> = Vec::new();
    let mut i: usize = 0;
    while i < chars.len()
        invariant
            chars@ == text@,
            i <= chars@.len(),
            out@ =~= sanitize_spec(text@.take(i as int)),
        decreases chars@.len() - i,
    {
        let c = chars[i];
        if graphic_or_space(c) {
            out.push(c);
        } else {
            out.push(' ');
        }
        i = i + 1;
        proof {
            assert(out@ =~= sanitize_spec(text@.take(i as int)));
        }
    }
    proof {
        assert(text@.take(text@.len() as int) =~= text@);
        assert(out@ =~= sanitize_spec(text@));
    }
    string_from_chars(&out)
}

/// Keeps the first `max` characters of the text.
pub fn truncate_status(text: &str, max: usize) -> (r: String)
    ensures
        r@ == truncate_spec(text@, max as int),
{
    let chars = chars_of(text);
    let mut out: Vec<char> = Vec::new();
    let mut i: usize = 0;
    while i < chars.len() && i < max
        invariant
            chars@ == text@,
            i <= chars@.len(),
            i <= max,
            out@ =~= text@.take(i as int),
        decreases chars@.len() - i,
    {
        out.push(chars[i]);
        i = i + 1;
        proof {
            assert(out@ =~= text@.take(i as int));
        }
    }
    proof {
        if text@.len() <= max {
            assert(text@.take(text@.len() as int) =~= text@);
        }
    }
    string_from_chars(&out)
}

/// The ASCII bytes of a sequence of ASCII characters.
pub open spec fn ascii_bytes(s: Seq<char>) -> Seq<u8> {
    s.map_values(|c: char| c as u8)
}

/// Appends the decimal digits of `n` as ASCII bytes.
fn push_dec_bytes(out: &mut Vec<u8>, n: u64)
    ensures
        final(out)@ == old(out)@ + ascii_bytes(dec_rep(n as nat)),
    decreases n,
{
    if n < 10 {
        let d: u8 = (n % 10) as u8;
        out.push(0x30 + d);
        proof {
            assert(out@ =~= old(out)@ + ascii_bytes(dec_rep(n as nat)));
        }
    } else {
        push_dec_bytes(out, n / 10);
        let d: u8 = (n % 10) as u8;
        out.push(0x30 + d);
        proof {
            assert(out@ =~= old(out)@ + ascii_bytes(dec_rep(n as nat)));
        }
    }
}

/// The escape sequence that writes `text` on the bottom row: save cursor,
/// move to row `rows` column 1, clear the line, the sanitised and
/// truncated text, restore cursor.  Empty when either dimension is zero.
pub open spec fn status_line_spec(text: Seq<char>, rows: u16, cols: u16) -> Seq<u8> {
    if rows == 0 || cols == 0 {
        Seq::empty()
    } else {
        seq![0x1bu8, 0x37u8] + seq![0x1bu8, 0x5bu8] + ascii_bytes(dec_rep(rows as nat)) + seq![
            0x3bu8,
            0x31u8,
            0x48u8,
        ] + seq![0x1bu8, 0x5bu8, 0x32u8, 0x4bu8] + ascii_bytes(
            truncate_spec(sanitize_spec(text), cols as int),
        ) + seq![0x1bu8, 0x38u8]
    }
}

/// The same sequence without any text: it clears the bottom row.
pub open spec fn clear_line_spec(rows: u16, cols: u16) -> Seq<u8> {
    if rows == 0 || cols == 0 {
        Seq::empty()
    } else {
        seq![0x1bu8, 0x37u8] + seq![0x1bu8, 0x5bu8] + ascii_bytes(dec_rep(rows as nat)) + seq![
            0x3bu8,
            0x31u8,
            0x48u8,
        ] + seq![0x1bu8, 0x5bu8, 0x32u8, 0x4bu8] + seq![0x1bu8, 0x38u8]
    }
}

/// Builds the bottom-row write sequence for `text`; a no-op (empty bytes)
/// when the terminal reports zero rows or columns.
pub fn write_status_line(text: &str, rows: u16, cols: u16) -> (r: Vec<u8>)
    ensures
        r@ == status_line_spec(text@, rows, cols),
{
    if rows == 0 || cols == 0 {
        let r = Vec::new();
        proof {
            assert(r@ =~= status_line_spec(text@, rows, cols));
        }
        return r;
    }
    let sanitized = sanitize_status(text);
    let trimmed = truncate_status(sanitized.as_str(), cols as usize);
    let tchars = chars_of(trimmed.as_str());
    let mut out: Vec<u8> = Vec::new();
    out.push(0x1b);
    out.push(0x37);
    out.push(0x1b);
    out.push(0x5b);
    push_dec_bytes(&mut out, rows as u64);
    out.push(0x3b);
    out.push(0x31);
    out.push(0x48);
    out.push(0x1b);
    out.push(0x5b);
    out.push(0x32);
    out.push(0x4b);
    let ghost head = out@;
    let mut i: usize = 0;
    while i < tchars.len()
        invariant
            tchars@ == truncate_spec(sanitize_spec(text@), cols as int),
            forall|j: int| 0 <= j < tchars@.len() ==> is_graphic_or_space(#[trigger] tchars@[j])
                || tchars@[j] == ' ',
            i <= tchars@.len(),
            out@ =~= head + ascii_bytes(tchars@.take(i as int)),
        decreases tchars@.len() - i,
    {
        let c = tchars[i];
        proof {
            assert(is_graphic_or_space(tchars@[i as int]) || tchars@[i as int] == ' ');
        }
        out.push(c as u8);
        i = i + 1;
        proof {
            assert(out@ =~= head + ascii_bytes(tchars@.take(i as int)));
        }
    }
    out.push(0x1b);
    out.push(0x38);
    proof {
        assert(tchars@.take(tchars@.len() as int) =~= tchars@);
        assert(out@ =~= status_line_spec(text@, rows, cols));
    }
    out
}

/// Builds the bottom-row clear sequence; a no-op when either dimension is
/// zero.
pub fn clear_status_line(rows: u16, cols: u16) -> (r: Vec<u8>)
    ensures
        r@ == clear_line_spec(rows, cols),
{
    if rows == 0 || cols == 0 {
        let r = Vec::new();
        proof {
            assert(r@ =~= clear_line_spec(rows, cols));
        }
        return r;
    }
    let mut out: Vec<u8> = Vec::new();
    out.push(0x1b);
    out.push(0x37);
    out.push(0x1b);
    out.push(0x5b);
    push_dec_bytes(&mut out, rows as u64);
    out.push(0x3b);
    out.push(0x31);
    out.push(0x48);
    out.push(0x1b);
    out.push(0x5b);
    out.push(0x32);
    out.push(0x4b);
    out.push(0x1b);
    out.push(0x38);
    proof {
        assert(out@ =~= clear_line_spec(rows, cols));
    }
    out
}

/// The writer-side state that decides when the status line is painted.
pub struct StatusPainter {
    /// Terminal dimensions, as last reported.
    pub rows: u16,
    pub cols: u16,
    /// The status currently on screen.
    pub status: Option<String>,
    /// A status waiting to be painted.
    pub pending_status: Option<String>,
    /// Whether a clear is waiting to be painted.
    pub pending_clear: bool,
    /// Whether anything needs painting at all.
    pub needs_redraw: bool,
    /// When PTY output last went through.
    pub last_output_at: u64,
    /// When the status line was last painted.
    pub last_status_draw_at: u64,
}

/// When a paint may run: something needs painting, and the PTY has been
/// quiet for 50 ms or the previous paint is 500 ms old.
pub open spec fn spec_should_redraw(p: StatusPainter, now: u64) -> bool {
    p.needs_redraw && (elapsed(now, p.last_output_at) >= 50 || elapsed(
        now,
        p.last_status_draw_at,
    ) >= 500)
}

/// The status on screen after a paint.
pub open spec fn painted_status(p: StatusPainter) -> Option<String> {
    if p.pending_status is Some {
        p.pending_status
    } else if p.pending_clear {
        Option::None
    } else {
        p.status
    }
}

/// The bytes a paint writes: a clear if one is pending, then the status
/// text if one is on screen afterwards.
pub open spec fn paint_bytes(p: StatusPainter, now: u64) -> Seq<u8> {
    (if p.pending_clear {
        clear_line_spec(p.rows, p.cols)
    } else {
        Seq::empty()
    }) + (match painted_status(p) {
        Option::Some(t) => status_line_spec(t@, p.rows, p.cols),
        Option::None => Seq::empty(),
    })
}

impl StatusPainter {
    /// A painter that has seen nothing yet.
    pub fn new(now: u64) -> (r: StatusPainter)
        ensures
            r == (StatusPainter {
                rows: 0,
                cols: 0,
                status: Option::None,
                pending_status: Option::None,
                pending_clear: false,
                needs_redraw: false,
                last_output_at: now,
                last_status_draw_at: now,
            }),
    {
        StatusPainter {
            rows: 0,
            cols: 0,
            status: Option::None,
            pending_status: Option::None,
            pending_clear: false,
            needs_redraw: false,
            last_output_at: now,
            last_status_draw_at: now,
        }
    }

    /// Records that PTY bytes went to the screen: any visible status will
    /// need repainting once the output pauses.
    pub fn on_pty_output(&mut self, now: u64)
        ensures
            *final(self) == (StatusPainter {
                last_output_at: now,
                needs_redraw: old(self).needs_redraw || old(self).status is Some,
                ..*old(self)
            }),
    {
        self.last_output_at = now;
        if self.status.is_some() {
            self.needs_redraw = true;
        }
    }

    /// Paints the pending status or clear if the deferral window allows
    /// it; returns the bytes to write, `None` when nothing may run yet.
    pub fn maybe_redraw(&mut self, now: u64) -> (r: Option<Vec<u8>>)
        ensures
            !spec_should_redraw(*old(self), now) ==> r is None && *final(self) == *old(self),
            spec_should_redraw(*old(self), now) ==> (r matches Some(b) && b@ == paint_bytes(
                *old(self),
                now,
            ) && *final(self) == (StatusPainter {
                status: painted_status(*old(self)),
                pending_status: Option::None,
                pending_clear: false,
                needs_redraw: false,
                last_status_draw_at: now,
                ..*old(self)
            })),
    {
        if !self.needs_redraw {
            return Option::None;
        }
        let since_output = elapsed_ms(now, self.last_output_at);
        let since_draw = elapsed_ms(now, self.last_status_draw_at);
        if since_output < 50 && since_draw < 500 {
            return Option::None;
        }
        let mut bytes: Vec<u8> = Vec::new();
        if self.pending_clear {
            let mut cleared = clear_status_line(self.rows, self.cols);
            bytes.append(&mut cleared);
            self.status = Option::None;
            self.pending_clear = false;
        }
        let mut taken: Option<String> = Option::None;
        core::mem::swap(&mut taken, &mut self.pending_status);
        match taken {
            Option::Some(t) => {
                self.status = Option::Some(t);
            },
            Option::None => {
            },
        }
        match &self.status {
            Option::Some(t) => {
                let mut written = write_status_line(t.as_str(), self.rows, self.cols);
                bytes.append(&mut written);
            },
            Option::None => {
            },
        }
        self.needs_redraw = false;
        self.last_status_draw_at = now;
        proof {
            assert(bytes@ =~= paint_bytes(*old(self), now));
        }
        Option::Some(bytes)
    }

    /// Queues a status text and tries to paint at once.
    pub fn on_status(&mut self, text: String, now: u64) -> (r: Option<Vec<u8>>)
        ensures
            ({
                let queued = StatusPainter {
                    pending_status: Option::Some(text),
                    pending_clear: false,
                    needs_redraw: true,
                    ..*old(self)
                };
                &&& (!spec_should_redraw(queued, now) ==> r is None && *final(self) == queued)
                &&& (spec_should_redraw(queued, now) ==> (r matches Some(b) && b@ == paint_bytes(
                    queued,
                    now,
                ) && *final(self) == (StatusPainter {
                    status: Option::Some(text),
                    pending_status: Option::None,
                    pending_clear: false,
                    needs_redraw: false,
                    last_status_draw_at: now,
                    ..*old(self)
                })))
            }),
    {
        self.pending_status = Option::Some(text);
        self.pending_clear = false;
        self.needs_redraw = true;
        self.maybe_redraw(now)
    }

    /// Queues a clear of the status line and tries to paint at once.
    pub fn on_clear(&mut self, now: u64) -> (r: Option<Vec<u8>>)
        ensures
            ({
                let queued = StatusPainter {
                    pending_status: Option::None,
                    pending_clear: true,
                    needs_redraw: true,
                    ..*old(self)
                };
                &&& (!spec_should_redraw(queued, now) ==> r is None && *final(self) == queued)
                &&& (spec_should_redraw(queued, now) ==> (r matches Some(b) && b@ == paint_bytes(
                    queued,
                    now,
                ) && *final(self) == (StatusPainter {
                    status: Option::None,
                    pending_status: Option::None,
                    pending_clear: false,
                    needs_redraw: false,
                    last_status_draw_at: now,
                    ..*old(self)
                })))
            }),
    {
        self.pending_status = Option::None;
        self.pending_clear = true;
        self.needs_redraw = true;
        self.maybe_redraw(now)
    }

    /// Records new terminal dimensions and repaints any visible or
    /// pending status for them.
    pub fn on_resize(&mut self, rows: u16, cols: u16, now: u64) -> (r: Option<Vec<u8>>)
        ensures
            ({
                let queued = StatusPainter {
                    rows,
                    cols,
                    needs_redraw: old(self).needs_redraw || old(self).status is Some || old(
                        self,
                    ).pending_status is Some,
                    ..*old(self)
                };
                &&& (!spec_should_redraw(queued, now) ==> r is None && *final(self) == queued)
                &&& (spec_should_redraw(queued, now) ==> (r matches Some(b) && b@ == paint_bytes(
                    queued,
                    now,
                ) && *final(self) == (StatusPainter {
                    rows,
                    cols,
                    status: painted_status(queued),
                    pending_status: Option::None,
                    pending_clear: false,
                    needs_redraw: false,
                    last_status_draw_at: now,
                    ..*old(self)
                })))
            }),
    {
        self.rows = rows;
        self.cols = cols;
        if self.status.is_some() || self.pending_status.is_some() {
            self.needs_redraw = true;
        }
        self.maybe_redraw(now)
    }

    /// A timer tick: paints whatever became due.
    pub fn on_tick(&mut self, now: u64) -> (r: Option<Vec<u8>>)
        ensures
            !spec_should_redraw(*old(self), now) ==> r is None && *final(self) == *old(self),
            spec_should_redraw(*old(self), now) ==> (r matches Some(b) && b@ == paint_bytes(
                *old(self),
                now,
            ) && *final(self) == (StatusPainter {
                status: painted_status(*old(self)),
                pending_status: Option::None,
                pending_clear: false,
                needs_redraw: false,
                last_status_draw_at: now,
                ..*old(self)
            })),
    {
        self.maybe_redraw(now)
    }
}

/// Law: status deferral.  While PTY output is steady (the last output is
/// under 50 ms old), a paint can only run 500 ms or later after the
/// previous one; and once the output has paused for 50 ms, a pending
/// status is painted at the very next check.
pub proof fn lemma_status_deferral(p: StatusPainter, now: u64)
    ensures
        spec_should_redraw(p, now) && elapsed(now, p.last_output_at) < 50 ==> elapsed(
            now,
            p.last_status_draw_at,
        ) >= 500,
        p.needs_redraw && elapsed(now, p.last_output_at) >= 50 ==> spec_should_redraw(p, now),
{
}

} // verus!
