//! Keystroke decoding.
//!
//! Raw bytes read from the terminal are decoded, statefully and byte by
//! byte, into high-level input events: plain payload bytes for the child,
//! the overlay's control keys, and the Enter key.  Escape sequences are
//! buffered so that arrow keys and other `ESC [` sequences reach the child
//! untouched, while the numeric "kitty keyboard" `CSI ... u` reports some
//! terminals emit are dropped.  The whole decoder is specified by
//! [`decode`], a fold of [`decode_step`] over the incoming bytes.

use vstd::prelude::*;

verus! {

/// A decoded terminal input event.
#[derive(Debug, PartialEq, Eq)]
pub enum InputEvent {
    /// Verbatim bytes to forward to the child.
    Bytes(Vec<u8>),
    /// Start a manual voice capture.
    VoiceTrigger,
    /// Toggle idle-driven automatic captures.
    ToggleAutoVoice,
    /// Toggle between the Auto and Insert send modes.
    ToggleSendMode,
    /// Raise the VAD threshold (less sensitive).
    IncreaseSensitivity,
    /// Lower the VAD threshold (more sensitive).
    DecreaseSensitivity,
    /// The Enter key.
    EnterKey,
    /// Quit the overlay.
    Exit,
}

/// The mathematical form of an input event.
#[verifier::ext_equal]
pub enum EventModel {
    Bytes(Seq<u8>),
    VoiceTrigger,
    ToggleAutoVoice,
    ToggleSendMode,
    IncreaseSensitivity,
    DecreaseSensitivity,
    EnterKey,
    Exit,
}

impl DeepView for InputEvent {
    type V = EventModel;

    open spec fn deep_view(&self) -> EventModel {
        match self {
            InputEvent::Bytes(v) => EventModel::Bytes(v@),
            InputEvent::VoiceTrigger => EventModel::VoiceTrigger,
            InputEvent::ToggleAutoVoice => EventModel::ToggleAutoVoice,
            InputEvent::ToggleSendMode => EventModel::ToggleSendMode,
            InputEvent::IncreaseSensitivity => EventModel::IncreaseSensitivity,
            InputEvent::DecreaseSensitivity => EventModel::DecreaseSensitivity,
            InputEvent::EnterKey => EventModel::EnterKey,
            InputEvent::Exit => EventModel::Exit,
        }
    }
}

/// The decoder's abstract state: accumulated payload bytes, whether a line
/// feed should be swallowed after a carriage return, and the escape buffer.
#[verifier::ext_equal]
pub struct DecoderModel {
    pub pending: Seq<u8>,
    pub skip_lf: bool,
    pub esc: Option<Seq<u8>>,
}

/// The state of a freshly constructed decoder.
pub open spec fn initial_decoder() -> DecoderModel {
    DecoderModel { pending: Seq::empty(), skip_lf: false, esc: Option::None }
}

/// True for the byte that terminates a CSI sequence.
pub open spec fn is_csi_final_spec(b: u8) -> bool {
    0x40 <= b <= 0x7e
}

/// True for an ASCII digit or a semicolon.
pub open spec fn is_digit_or_semi(b: u8) -> bool {
    (0x30 <= b <= 0x39) || b == 0x3b
}

/// True for a full escape buffer of the form `ESC [ <digits and semicolons> u`.
pub open spec fn is_csi_u_numeric_spec(buf: Seq<u8>) -> bool {
    &&& buf.len() >= 3
    &&& buf[0] == 0x1b
    &&& buf[1] == 0x5b
    &&& buf.last() == 0x75
    &&& forall|i: int| 2 <= i < buf.len() - 1 ==> is_digit_or_semi(buf[i])
}

/// The event a mapped control byte decodes to, `None` for any other byte.
pub open spec fn control_event(b: u8) -> Option<EventModel> {
    if b == 0x11 {
        Option::Some(EventModel::Exit)
    } else if b == 0x12 {
        Option::Some(EventModel::VoiceTrigger)
    } else if b == 0x16 {
        Option::Some(EventModel::ToggleAutoVoice)
    } else if b == 0x14 {
        Option::Some(EventModel::ToggleSendMode)
    } else if b == 0x1d {
        Option::Some(EventModel::IncreaseSensitivity)
    } else if b == 0x1c || b == 0x1f {
        Option::Some(EventModel::DecreaseSensitivity)
    } else if b == 0x0d || b == 0x0a {
        Option::Some(EventModel::EnterKey)
    } else {
        Option::None
    }
}

/// The events a flush emits: one `Bytes` event holding the pending payload
/// and any unfinished escape buffer, or nothing when both are empty.
pub open spec fn flush_events(s: DecoderModel) -> Seq<EventModel> {
    let p = s.pending + (match s.esc {
        Option::Some(buf) => buf,
        Option::None => Seq::empty(),
    });
    if p.len() > 0 {
        seq![EventModel::Bytes(p)]
    } else {
        Seq::empty()
    }
}

/// The decoder state after a flush.
pub open spec fn flushed(s: DecoderModel) -> DecoderModel {
    DecoderModel { pending: Seq::empty(), skip_lf: s.skip_lf, esc: Option::None }
}

/// One step of escape-sequence handling; the second component says whether
/// the byte was consumed by the escape machinery.
pub open spec fn esc_step(s: DecoderModel, b: u8) -> (DecoderModel, bool) {
    match s.esc {
        Option::Some(buf0) => {
            let buf = buf0.push(b);
            if buf.len() == 2 && buf[1] != 0x5b {
                (DecoderModel { pending: s.pending + buf, esc: Option::None, ..s }, true)
            } else if buf.len() >= 2 && buf[1] == 0x5b {
                if buf.len() >= 3 && is_csi_final_spec(b) {
                    if is_csi_u_numeric_spec(buf) {
                        (DecoderModel { esc: Option::None, ..s }, true)
                    } else {
                        (DecoderModel { pending: s.pending + buf, esc: Option::None, ..s }, true)
                    }
                } else if buf.len() > 32 {
                    (DecoderModel { pending: s.pending + buf, esc: Option::None, ..s }, true)
                } else {
                    (DecoderModel { esc: Option::Some(buf), ..s }, true)
                }
            } else if buf.len() > 32 {
                (DecoderModel { pending: s.pending + buf, esc: Option::None, ..s }, true)
            } else {
                (DecoderModel { esc: Option::Some(buf), ..s }, true)
            }
        },
        Option::None => (s, false),
    }
}

/// One full decoder step on one byte: escape collection first; an ESC
/// flushes the pending payload and opens an escape buffer; then the
/// CR-LF swallow and the control-byte dispatch or payload accumulation.
pub open spec fn decode_step(s: DecoderModel, b: u8) -> (DecoderModel, Seq<EventModel>) {
    let stepped = esc_step(s, b);
    if stepped.1 {
        (stepped.0, Seq::empty())
    } else if b == 0x1b {
        (
            DecoderModel {
                pending: Seq::empty(),
                skip_lf: s.skip_lf,
                esc: Option::Some(seq![0x1bu8]),
            },
            flush_events(s),
        )
    } else if s.skip_lf && b == 0x0a {
        (DecoderModel { skip_lf: false, ..s }, Seq::empty())
    } else {
        let s2 = DecoderModel { skip_lf: false, ..s };
        match control_event(b) {
            Option::Some(e) => (
                DecoderModel { pending: Seq::empty(), skip_lf: b == 0x0d, esc: Option::None },
                flush_events(s2) + seq![e],
            ),
            Option::None => (DecoderModel { pending: s2.pending.push(b), ..s2 }, Seq::empty()),
        }
    }
}

/// The decoder folded over a byte sequence: final state and emitted events.
pub open spec fn decode(s: DecoderModel, bs: Seq<u8>) -> (DecoderModel, Seq<EventModel>)
    decreases bs.len(),
{
    if bs.len() == 0 {
        (s, Seq::empty())
    } else {
        let first = decode_step(s, bs.first());
        let rest = decode(first.0, bs.drop_first());
        (rest.0, first.1 + rest.1)
    }
}

/// Unfolds `decode` from the right: decoding `bs` then one more byte is one
/// `decode_step` after decoding `bs`.
pub proof fn lemma_decode_snoc(s: DecoderModel, bs: Seq<u8>, b: u8)
    ensures
        decode(s, bs.push(b)).0 == decode_step(decode(s, bs).0, b).0,
        decode(s, bs.push(b)).1 =~= decode(s, bs).1 + decode_step(decode(s, bs).0, b).1,
    decreases bs.len(),
{
    reveal_with_fuel(decode, 3);
    if bs.len() == 0 {
        assert(bs.push(b).first() == b);
        assert(bs.push(b).drop_first() =~= Seq::<u8>::empty());
        assert(decode(s, bs.push(b)).1 =~= decode(s, bs).1 + decode_step(decode(s, bs).0, b).1);
    } else {
        assert(bs.push(b).first() == bs.first());
        assert(bs.push(b).drop_first() =~= bs.drop_first().push(b));
        lemma_decode_snoc(decode_step(s, bs.first()).0, bs.drop_first(), b);
        assert(decode(s, bs.push(b)).1 =~= decode(s, bs).1 + decode_step(decode(s, bs).0, b).1);
    }
}


/// Appends one event, tracking the event sequence's mathematical form.
fn push_event(out: &mut Vec<InputEvent>, ev: InputEvent)
    ensures
        final(out).deep_view() =~= old(out).deep_view().push(ev.deep_view()),
{
    out.push(ev);
    proof {
        assert forall|i: int| 0 <= i < out@.len() implies out.deep_view()[i] == old(
            out,
        ).deep_view().push(ev.deep_view())[i] by {
            if i < old(out)@.len() {
                assert(out@[i] == old(out)@[i]);
            } else {
                assert(out@[i] == ev);
            }
        }
        assert(out.deep_view() =~= old(out).deep_view().push(ev.deep_view()));
    }
}

/// Stateful decoder of raw keystroke bytes.
pub struct InputParser {
    pending: Vec<u8>,
    skip_lf: bool,
    esc_active: bool,
    esc_buffer: Vec<u8>,
}

impl View for InputParser {
    type V = DecoderModel;

    closed spec fn view(&self) -> DecoderModel {
        DecoderModel {
            pending: self.pending@,
            skip_lf: self.skip_lf,
            esc: if self.esc_active {
                Option::Some(self.esc_buffer@)
            } else {
                Option::None
            },
        }
    }
}

/// True for the byte that terminates a CSI sequence (final byte range).
pub fn is_csi_final(byte: u8) -> (r: bool)
    ensures
        r == is_csi_final_spec(byte),
{
    0x40 <= byte && byte <= 0x7e
}

/// True for an escape buffer of the numeric "kitty keyboard" form
/// `ESC [ <digits and semicolons> u`.
pub fn is_csi_u_numeric(buffer: &Vec<u8>) -> (r: bool)
    ensures
        r == is_csi_u_numeric_spec(buffer@),
{
    if buffer.len() < 3 {
        return false;
    }
    if buffer[0] != 0x1b || buffer[1] != 0x5b || buffer[buffer.len() - 1] != 0x75 {
        proof {
            assert(buffer@.last() == buffer@[buffer@.len() - 1]);
        }
        return false;
    }
    let mut i: usize = 2;
    while i < buffer.len() - 1
        invariant
            3 <= buffer@.len(),
            2 <= i <= buffer@.len() - 1,
            forall|j: int| 2 <= j < i ==> is_digit_or_semi(buffer@[j]),
        decreases buffer@.len() - i,
    {
        let b = buffer[i];
        if !((0x30 <= b && b <= 0x39) || b == 0x3b) {
            return false;
        }
        i = i + 1;
    }
    proof {
        assert(buffer@.last() == buffer@[buffer@.len() - 1]);
    }
    true
}

impl InputParser {
    /// The decoder's structural invariant: the escape buffer is empty
    /// whenever no escape sequence is being collected.
    pub closed spec fn wf(&self) -> bool {
        !self.esc_active ==> self.esc_buffer@.len() == 0
    }

    /// A fresh decoder with nothing buffered.
    pub fn new() -> (r: InputParser)
        ensures
            r@ == initial_decoder(),
            r.wf(),
    {
        let r = InputParser {
            pending: Vec::new(),
            skip_lf: false,
            esc_active: false,
            esc_buffer: Vec::new(),
        };
        proof {
            assert(r@ =~= initial_decoder());
        }
        r
    }

    /// Moves the escape buffer into the pending payload.
    fn flush_esc_to_pending(&mut self)
        requires
            old(self).esc_active,
        ensures
            final(self).wf(),
            final(self)@ == (DecoderModel {
                pending: old(self)@.pending + old(self)@.esc.unwrap(),
                esc: Option::None,
                ..old(self)@
            }),
    {
        self.pending.append(&mut self.esc_buffer);
        self.esc_active = false;
        proof {
            assert(self@ =~= (DecoderModel {
                pending: old(self)@.pending + old(self)@.esc.unwrap(),
                esc: Option::None,
                ..old(self)@
            }));
        }
    }

    /// Feeds one byte to the escape machinery; returns whether it was
    /// consumed there.
    fn consume_escape(&mut self, byte: u8) -> (handled: bool)
        requires
            old(self).wf(),
        ensures
            final(self).wf(),
            final(self)@ == esc_step(old(self)@, byte).0,
            handled == esc_step(old(self)@, byte).1,
    {
        if self.esc_active {
            self.esc_buffer.push(byte);
            proof {
                assert(self@.esc.unwrap() =~= old(self)@.esc.unwrap().push(byte));
            }
            let blen = self.esc_buffer.len();
            if blen == 2 && self.esc_buffer[1] != 0x5b {
                self.flush_esc_to_pending();
                proof {
                    assert(self@ =~= esc_step(old(self)@, byte).0);
                }
                return true;
            }
            if blen >= 2 && self.esc_buffer[1] == 0x5b {
                if blen >= 3 && is_csi_final(byte) {
                    if is_csi_u_numeric(&self.esc_buffer) {
                        self.esc_buffer.clear();
                        self.esc_active = false;
                        proof {
                            assert(self@ =~= esc_step(old(self)@, byte).0);
                        }
                    } else {
                        self.flush_esc_to_pending();
                        proof {
                            assert(self@ =~= esc_step(old(self)@, byte).0);
                        }
                    }
                    return true;
                }
                if blen > 32 {
                    self.flush_esc_to_pending();
                    proof {
                        assert(self@ =~= esc_step(old(self)@, byte).0);
                    }
                    return true;
                }
                proof {
                    assert(self@ =~= esc_step(old(self)@, byte).0);
                }
                return true;
            }
            if blen > 32 {
                self.flush_esc_to_pending();
                proof {
                    assert(self@ =~= esc_step(old(self)@, byte).0);
                }
                return true;
            }
            proof {
                assert(self@ =~= esc_step(old(self)@, byte).0);
            }
            return true;
        }
        false
    }

    /// Emits the pending payload (and any unfinished escape buffer) as one
    /// `Bytes` event, leaving the decoder's buffers empty.
    pub fn flush_pending(&mut self, out: &mut Vec<InputEvent>)
        requires
            old(self).wf(),
        ensures
            final(self).wf(),
            final(self)@ == flushed(old(self)@),
            final(out).deep_view() =~= old(out).deep_view() + flush_events(old(self)@),
    {
        if self.esc_active {
            self.pending.append(&mut self.esc_buffer);
            self.esc_active = false;
        }
        if self.pending.len() > 0 {
            let mut taken: Vec<u8> = Vec::new();
            taken.append(&mut self.pending);
            out.push(InputEvent::Bytes(taken));
            proof {
                assert(out.deep_view() =~= old(out).deep_view() + flush_events(old(self)@));
                assert(self@ =~= flushed(old(self)@));
            }
        } else {
            proof {
                assert(flush_events(old(self)@) =~= Seq::<EventModel>::empty());
                assert(out.deep_view() =~= old(out).deep_view() + flush_events(old(self)@));
                assert(self@ =~= flushed(old(self)@));
            }
        }
    }

    /// Decodes a batch of raw bytes, appending the produced events to `out`.
    pub fn consume_bytes(&mut self, bytes: &[u8], out: &mut Vec<InputEvent>)
        requires
            old(self).wf(),
        ensures
            final(self).wf(),
            final(self)@ == decode(old(self)@, bytes@).0,
            final(out).deep_view() =~= old(out).deep_view() + decode(old(self)@, bytes@).1,
    {
        proof {
            assert(bytes@.take(0) =~= Seq::<u8>::empty());
        }
        let ghost s0 = old(self)@;
        let ghost out0 = old(out).deep_view();
        let mut i: usize = 0;
        while i < bytes.len()
            invariant
                self.wf(),
                i <= bytes@.len(),
                self@ == decode(s0, bytes@.take(i as int)).0,
                out.deep_view() =~= out0 + decode(s0, bytes@.take(i as int)).1,
            decreases bytes@.len() - i,
        {
            let byte = bytes[i];
            let ghost s_pre = self@;
            let ghost out_pre = out.deep_view();
            let handled = self.consume_escape(byte);
            if !handled {
                if byte == 0x1b {
                    self.flush_pending(out);
                    self.esc_active = true;
                    self.esc_buffer.push(byte);
                    proof {
                        assert(self@.esc.unwrap() =~= seq![0x1bu8]);
                        assert(self@ =~= decode_step(s_pre, byte).0);
                        assert(out.deep_view() =~~= out_pre + decode_step(s_pre, byte).1);
                        lemma_decode_snoc(s0, bytes@.take(i as int), byte);
                        assert(bytes@.take(i + 1) =~= bytes@.take(i as int).push(byte));
                    }
                    i = i + 1;
                    continue;
                }
                let mut swallowed = false;
                if self.skip_lf {
                    self.skip_lf = false;
                    if byte == 0x0a {
                        swallowed = true;
                    }
                }
                if !swallowed {
                    if byte == 0x11 {
                        self.flush_pending(out);
                        push_event(out, InputEvent::Exit);
                    } else if byte == 0x12 {
                        self.flush_pending(out);
                        push_event(out, InputEvent::VoiceTrigger);
                    } else if byte == 0x16 {
                        self.flush_pending(out);
                        push_event(out, InputEvent::ToggleAutoVoice);
                    } else if byte == 0x14 {
                        self.flush_pending(out);
                        push_event(out, InputEvent::ToggleSendMode);
                    } else if byte == 0x1d {
                        self.flush_pending(out);
                        push_event(out, InputEvent::IncreaseSensitivity);
                    } else if byte == 0x1c || byte == 0x1f {
                        self.flush_pending(out);
                        push_event(out, InputEvent::DecreaseSensitivity);
                    } else if byte == 0x0d || byte == 0x0a {
                        self.flush_pending(out);
                        push_event(out, InputEvent::EnterKey);
                        if byte == 0x0d {
                            self.skip_lf = true;
                        }
                    } else {
                        self.pending.push(byte);
                    }
                }
            }
            proof {
                assert(self@ =~= decode_step(s_pre, byte).0);
                assert(out.deep_view() =~~= out_pre + decode_step(s_pre, byte).1);
                lemma_decode_snoc(s0, bytes@.take(i as int), byte);
                assert(bytes@.take(i + 1) =~= bytes@.take(i as int).push(byte));
            }
            i = i + 1;
        }
        proof {
            assert(bytes@.take(bytes@.len() as int) =~= bytes@);
        }
    }
}

/// Law: the control-byte mapping is total.  From a fresh decoder, each of
/// the bytes 0x11, 0x12, 0x14, 0x16, 0x1c, 0x1d, 0x1f, 0x0a and 0x0d
/// decodes to exactly its fixed control event and nothing else.
pub proof fn lemma_control_byte_mapping(b: u8)
    requires
        control_event(b) is Some,
    ensures
        decode(initial_decoder(), seq![b]).1 =~= seq![control_event(b).unwrap()],
        decode(initial_decoder(), seq![b]).0.pending =~= Seq::<u8>::empty(),
        decode(initial_decoder(), seq![b]).0.esc is None,
{
    reveal_with_fuel(decode, 3);
    let bs = seq![b];
    assert(bs.first() == b);
    assert(bs.drop_first() =~= Seq::<u8>::empty());
    assert(decode_step(initial_decoder(), b).1 =~= seq![control_event(b).unwrap()]);
    assert(decode(initial_decoder(), bs).1 =~= seq![control_event(b).unwrap()]);
}

/// Law: a carriage return followed by a line feed decodes to exactly one
/// `EnterKey` event; the line feed is swallowed.
pub proof fn lemma_crlf_single_enter()
    ensures
        decode(initial_decoder(), seq![0x0du8, 0x0au8]).1 =~= seq![EventModel::EnterKey],
        flush_events(decode(initial_decoder(), seq![0x0du8, 0x0au8]).0) =~= Seq::<
            EventModel,
        >::empty(),
{
    reveal_with_fuel(decode, 4);
    let bs = seq![0x0du8, 0x0au8];
    assert(bs.first() == 0x0du8);
    assert(bs.drop_first() =~= seq![0x0au8]);
    let s1 = decode_step(initial_decoder(), 0x0du8).0;
    assert(decode_step(initial_decoder(), 0x0du8).1 =~= seq![EventModel::EnterKey]);
    assert(s1.skip_lf);
    assert(seq![0x0au8].first() == 0x0au8);
    assert(seq![0x0au8].drop_first() =~= Seq::<u8>::empty());
    assert(decode_step(s1, 0x0au8).1 =~= Seq::<EventModel>::empty());
    assert(decode(initial_decoder(), bs).1 =~= seq![EventModel::EnterKey]);
}

/// Law: a carriage return followed by any ordinary byte decodes to an
/// `EnterKey` event, and the byte stays pending: the following flush
/// emits it as a one-byte `Bytes` event.
pub proof fn lemma_cr_then_ordinary_byte(x: u8)
    requires
        control_event(x) is None,
        x != 0x1b,
    ensures
        decode(initial_decoder(), seq![0x0du8, x]).1 =~= seq![EventModel::EnterKey],
        flush_events(decode(initial_decoder(), seq![0x0du8, x]).0) =~= seq![
            EventModel::Bytes(seq![x]),
        ],
{
    reveal_with_fuel(decode, 4);
    let bs = seq![0x0du8, x];
    assert(bs.first() == 0x0du8);
    assert(bs.drop_first() =~= seq![x]);
    let s1 = decode_step(initial_decoder(), 0x0du8).0;
    assert(decode_step(initial_decoder(), 0x0du8).1 =~= seq![EventModel::EnterKey]);
    assert(seq![x].first() == x);
    assert(seq![x].drop_first() =~= Seq::<u8>::empty());
    let s2 = decode_step(s1, x).0;
    assert(s2.pending =~= seq![x]);
    assert(decode(initial_decoder(), bs).1 =~= seq![EventModel::EnterKey]);
    assert(flush_events(s2) =~= seq![EventModel::Bytes(seq![x])]);
}

/// After `ESC [` and up to 30 digit-or-semicolon bytes, the decoder is
/// still collecting the escape buffer and has emitted nothing.
proof fn lemma_csi_accumulate(ds: Seq<u8>)
    requires
        forall|i: int| 0 <= i < ds.len() ==> is_digit_or_semi(ds[i]),
        ds.len() <= 30,
    ensures
        decode(initial_decoder(), seq![0x1bu8, 0x5bu8] + ds).0 =~= (DecoderModel {
            pending: Seq::empty(),
            skip_lf: false,
            esc: Option::Some(seq![0x1bu8, 0x5bu8] + ds),
        }),
        decode(initial_decoder(), seq![0x1bu8, 0x5bu8] + ds).1 =~= Seq::<EventModel>::empty(),
    decreases ds.len(),
{
    reveal_with_fuel(decode, 4);
    if ds.len() == 0 {
        let bs = seq![0x1bu8, 0x5bu8] + ds;
        assert(bs =~= seq![0x1bu8, 0x5bu8]);
        assert(bs.first() == 0x1bu8);
        assert(bs.drop_first() =~= seq![0x5bu8]);
        let s1 = decode_step(initial_decoder(), 0x1bu8).0;
        assert(s1.pending =~= Seq::<u8>::empty());
        assert(s1.esc.unwrap() =~= seq![0x1bu8]);
        assert(seq![0x5bu8].first() == 0x5bu8);
        assert(seq![0x5bu8].drop_first() =~= Seq::<u8>::empty());
        let buf = s1.esc.unwrap().push(0x5bu8);
        assert(buf =~= seq![0x1bu8, 0x5bu8]);
        assert(buf[1] == 0x5b);
        let s2 = decode_step(s1, 0x5bu8).0;
        assert(s2.esc.unwrap() =~= seq![0x1bu8, 0x5bu8] + ds);
        assert(decode(initial_decoder(), bs).0 =~= (DecoderModel {
            pending: Seq::empty(),
            skip_lf: false,
            esc: Option::Some(seq![0x1bu8, 0x5bu8] + ds),
        }));
    } else {
        let prefix = ds.drop_last();
        let b = ds.last();
        lemma_csi_accumulate(prefix);
        let head = seq![0x1bu8, 0x5bu8];
        assert(head + ds =~= (head + prefix).push(b));
        lemma_decode_snoc(initial_decoder(), head + prefix, b);
        let s_pre = decode(initial_decoder(), head + prefix).0;
        let buf = s_pre.esc.unwrap().push(b);
        assert(buf =~= head + ds);
        assert(buf[1] == 0x5b);
        assert(buf.len() == 2 + ds.len() <= 32);
        assert(!is_csi_final_spec(b));
        let s_post = decode_step(s_pre, b).0;
        assert(s_post.esc.unwrap() =~= head + ds);
        assert(decode(initial_decoder(), head + ds).0 =~= (DecoderModel {
            pending: Seq::empty(),
            skip_lf: false,
            esc: Option::Some(head + ds),
        }));
    }
}

/// Law: a numeric `CSI u` key report — `ESC [`, up to 30 digits and
/// semicolons, then `u` — is dropped whole: the decoder emits no event for
/// it, and a following flush emits nothing either.
pub proof fn lemma_csi_u_dropped(ds: Seq<u8>)
    requires
        forall|i: int| 0 <= i < ds.len() ==> is_digit_or_semi(ds[i]),
        ds.len() <= 30,
    ensures
        decode(initial_decoder(), seq![0x1bu8, 0x5bu8] + ds + seq![0x75u8]).1 =~= Seq::<
            EventModel,
        >::empty(),
        flush_events(decode(initial_decoder(), seq![0x1bu8, 0x5bu8] + ds + seq![0x75u8]).0) =~= Seq::<
            EventModel,
        >::empty(),
{
    reveal_with_fuel(decode, 2);
    let head = seq![0x1bu8, 0x5bu8];
    lemma_csi_accumulate(ds);
    assert(head + ds + seq![0x75u8] =~= (head + ds).push(0x75u8));
    lemma_decode_snoc(initial_decoder(), head + ds, 0x75u8);
    let s_pre = decode(initial_decoder(), head + ds).0;
    let buf = s_pre.esc.unwrap().push(0x75u8);
    assert(buf =~= head + ds + seq![0x75u8]);
    assert(buf[1] == 0x5b);
    assert(buf.last() == 0x75);
    assert(is_csi_final_spec(0x75u8));
    assert(forall|i: int| 2 <= i < buf.len() - 1 ==> is_digit_or_semi(#[trigger] buf[i]));
    assert(is_csi_u_numeric_spec(buf));
    let s_post = decode_step(s_pre, 0x75u8).0;
    assert(s_post.pending =~= Seq::<u8>::empty());
    assert(s_post.esc is None);
}

/// Law: a CSI sequence that is not a numeric `u` report is preserved: the
/// arrow key `ESC [ A` is handed on verbatim by the following flush.
pub proof fn lemma_csi_arrow_preserved()
    ensures
        decode(initial_decoder(), seq![0x1bu8, 0x5bu8, 0x41u8]).1 =~= Seq::<EventModel>::empty(),
        flush_events(decode(initial_decoder(), seq![0x1bu8, 0x5bu8, 0x41u8]).0) =~= seq![
            EventModel::Bytes(seq![0x1bu8, 0x5bu8, 0x41u8]),
        ],
{
    reveal_with_fuel(decode, 2);
    let head = seq![0x1bu8, 0x5bu8];
    let ds = Seq::<u8>::empty();
    lemma_csi_accumulate(ds);
    assert(head + ds =~= head);
    assert(seq![0x1bu8, 0x5bu8, 0x41u8] =~= head.push(0x41u8));
    lemma_decode_snoc(initial_decoder(), head, 0x41u8);
    let s_pre = decode(initial_decoder(), head).0;
    let buf = s_pre.esc.unwrap().push(0x41u8);
    assert(buf =~= seq![0x1bu8, 0x5bu8, 0x41u8]);
    assert(buf[1] == 0x5b);
    assert(is_csi_final_spec(0x41u8));
    assert(buf.last() == 0x41);
    assert(!is_csi_u_numeric_spec(buf));
    let s_post = decode_step(s_pre, 0x41u8).0;
    assert(s_post.pending =~= seq![0x1bu8, 0x5bu8, 0x41u8]);
    assert(flush_events(s_post) =~= seq![EventModel::Bytes(seq![0x1bu8, 0x5bu8, 0x41u8])]);
}

} // verus!
