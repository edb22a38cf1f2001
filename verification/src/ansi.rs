//! ANSI stripping for prompt tracking.
//!
//! The prompt tracker only wants the characters the child actually prints,
//! so terminal control sequences must go.  A small VT state machine walks
//! the byte stream: printable ASCII survives, as do line feed, carriage
//! return and tab; CSI sequences, OSC/DCS/SOS/PM/APC strings and all other
//! control bytes are discarded.  Bytes at or above 0x80 are dropped too —
//! multi-byte characters never reach the line buffer, which holds
//! printable ASCII only.  Each output chunk is stripped with a fresh
//! machine, so a sequence split across chunks is not recognised; the
//! tracker accepts that imprecision.

use vstd::prelude::*;

verus! {

/// The states of the stripping machine.
#[derive(Debug, Clone, Copy, PartialEq, Eq, Structural)]
pub enum VtState {
    /// Ordinary text.
    Ground,
    /// After an ESC byte.
    Escape,
    /// Inside `ESC [` ... final byte.
    Csi,
    /// Inside an `ESC ]` string, ended by BEL or ESC.
    Osc,
    /// Inside an `ESC P` string, ended by ESC.
    Dcs,
    /// Inside an `ESC X`, `ESC ^` or `ESC _` string, ended by ESC.
    SosPmApc,
}

/// True for the control bytes that survive stripping: `\n`, `\r`, `\t`.
pub open spec fn is_kept_control(b: u8) -> bool {
    b == 0x0a || b == 0x0d || b == 0x09
}

/// One step of the machine: the next state and the bytes kept.
pub open spec fn strip_step(st: VtState, b: u8) -> (VtState, Seq<u8>) {
    match st {
        VtState::Ground => {
            if b == 0x1b {
                (VtState::Escape, Seq::empty())
            } else if 0x20 <= b <= 0x7e || is_kept_control(b) {
                (VtState::Ground, seq![b])
            } else {
                (VtState::Ground, Seq::empty())
            }
        },
        VtState::Escape => {
            if b == 0x5b {
                (VtState::Csi, Seq::empty())
            } else if b == 0x5d {
                (VtState::Osc, Seq::empty())
            } else if b == 0x50 {
                (VtState::Dcs, Seq::empty())
            } else if b == 0x58 || b == 0x5e || b == 0x5f {
                (VtState::SosPmApc, Seq::empty())
            } else if b == 0x1b {
                (VtState::Escape, Seq::empty())
            } else if 0x20 <= b <= 0x2f {
                (VtState::Escape, Seq::empty())
            } else if is_kept_control(b) {
                (VtState::Escape, seq![b])
            } else {
                (VtState::Ground, Seq::empty())
            }
        },
        VtState::Csi => {
            if 0x40 <= b <= 0x7e {
                (VtState::Ground, Seq::empty())
            } else if b == 0x1b {
                (VtState::Escape, Seq::empty())
            } else if is_kept_control(b) {
                (VtState::Csi, seq![b])
            } else {
                (VtState::Csi, Seq::empty())
            }
        },
        VtState::Osc => {
            if b == 0x07 {
                (VtState::Ground, Seq::empty())
            } else if b == 0x1b {
                (VtState::Escape, Seq::empty())
            } else {
                (VtState::Osc, Seq::empty())
            }
        },
        VtState::Dcs => {
            if b == 0x1b {
                (VtState::Escape, Seq::empty())
            } else {
                (VtState::Dcs, Seq::empty())
            }
        },
        VtState::SosPmApc => {
            if b == 0x1b {
                (VtState::Escape, Seq::empty())
            } else {
                (VtState::SosPmApc, Seq::empty())
            }
        },
    }
}

/// The machine folded over a byte sequence.
pub open spec fn strip_fold(st: VtState, bs: Seq<u8>) -> (VtState, Seq<u8>)
    decreases bs.len(),
{
    if bs.len() == 0 {
        (st, Seq::empty())
    } else {
        let first = strip_step(st, bs.first());
        let rest = strip_fold(first.0, bs.drop_first());
        (rest.0, first.1 + rest.1)
    }
}

/// What stripping a whole chunk keeps, starting from ordinary text.
pub open spec fn stripped(bs: Seq<u8>) -> Seq<u8> {
    strip_fold(VtState::Ground, bs).1
}

/// Unfolds `strip_fold` from the right.
proof fn lemma_strip_snoc(st: VtState, bs: Seq<u8>, b: u8)
    ensures
        strip_fold(st, bs.push(b)).0 == strip_step(strip_fold(st, bs).0, b).0,
        strip_fold(st, bs.push(b)).1 =~= strip_fold(st, bs).1 + strip_step(
            strip_fold(st, bs).0,
            b,
        ).1,
    decreases bs.len(),
{
    reveal_with_fuel(strip_fold, 3);
    if bs.len() == 0 {
        assert(bs.push(b).first() == b);
        assert(bs.push(b).drop_first() =~= Seq::<u8>::empty());
        assert(strip_fold(st, bs.push(b)).1 =~= strip_fold(st, bs).1 + strip_step(
            strip_fold(st, bs).0,
            b,
        ).1);
    } else {
        assert(bs.push(b).first() == bs.first());
        assert(bs.push(b).drop_first() =~= bs.drop_first().push(b));
        lemma_strip_snoc(strip_step(st, bs.first()).0, bs.drop_first(), b);
        assert(strip_fold(st, bs.push(b)).1 =~= strip_fold(st, bs).1 + strip_step(
            strip_fold(st, bs).0,
            b,
        ).1);
    }
}

/// Everything stripping keeps is printable ASCII or a kept control byte.
pub proof fn lemma_stripped_printable(st: VtState, bs: Seq<u8>)
    ensures
        forall|i: int| 0 <= i < strip_fold(st, bs).1.len() ==> (0x20 <= #[trigger] strip_fold(
            st,
            bs,
        ).1[i] <= 0x7e || is_kept_control(strip_fold(st, bs).1[i])),
    decreases bs.len(),
{
    if bs.len() > 0 {
        let first = strip_step(st, bs.first());
        let rest = strip_fold(first.0, bs.drop_first());
        lemma_stripped_printable(first.0, bs.drop_first());
        assert forall|i: int| 0 <= i < strip_fold(st, bs).1.len() implies (0x20 <= strip_fold(
            st,
            bs,
        ).1[i] <= 0x7e || is_kept_control(strip_fold(st, bs).1[i])) by {
            if i < first.1.len() {
                assert(strip_fold(st, bs).1[i] == first.1[i]);
            } else {
                assert(strip_fold(st, bs).1[i] == rest.1[i - first.1.len()]);
            }
        }
    }
}

/// Strips one chunk of PTY output, keeping only printed ASCII characters
/// and the whitelisted control bytes.
pub fn strip_ansi_preserve_controls(bytes: &[u8]) -> (r: Vec<u8>)
    ensures
        r@ == stripped(bytes@),
{
    let mut st = VtState::Ground;
    let mut out: Vec<u8> = Vec::new();
    proof {
        assert(bytes@.take(0) =~= Seq::<u8>::empty());
    }
    let mut i: usize = 0;
    while i < bytes.len()
        invariant
            i <= bytes@.len(),
            st == strip_fold(VtState::Ground, bytes@.take(i as int)).0,
            out@ =~= strip_fold(VtState::Ground, bytes@.take(i as int)).1,
        decreases bytes@.len() - i,
    {
        let b = bytes[i];
        let ghost st_pre = st;
        let kept: bool;
        match st {
            VtState::Ground => {
                if b == 0x1b {
                    st = VtState::Escape;
                    kept = false;
                } else if (0x20 <= b && b <= 0x7e) || b == 0x0a || b == 0x0d || b == 0x09 {
                    kept = true;
                } else {
                    kept = false;
                }
            },
            VtState::Escape => {
                if b == 0x5b {
                    st = VtState::Csi;
                    kept = false;
                } else if b == 0x5d {
                    st = VtState::Osc;
                    kept = false;
                } else if b == 0x50 {
                    st = VtState::Dcs;
                    kept = false;
                } else if b == 0x58 || b == 0x5e || b == 0x5f {
                    st = VtState::SosPmApc;
                    kept = false;
                } else if b == 0x1b {
                    kept = false;
                } else if 0x20 <= b && b <= 0x2f {
                    kept = false;
                } else if b == 0x0a || b == 0x0d || b == 0x09 {
                    kept = true;
                } else {
                    st = VtState::Ground;
                    kept = false;
                }
            },
            VtState::Csi => {
                if 0x40 <= b && b <= 0x7e {
                    st = VtState::Ground;
                    kept = false;
                } else if b == 0x1b {
                    st = VtState::Escape;
                    kept = false;
                } else if b == 0x0a || b == 0x0d || b == 0x09 {
                    kept = true;
                } else {
                    kept = false;
                }
            },
            VtState::Osc => {
                if b == 0x07 {
                    st = VtState::Ground;
                    kept = false;
                } else if b == 0x1b {
                    st = VtState::Escape;
                    kept = false;
                } else {
                    kept = false;
                }
            },
            VtState::Dcs => {
                if b == 0x1b {
                    st = VtState::Escape;
                    kept = false;
                } else {
                    kept = false;
                }
            },
            VtState::SosPmApc => {
                if b == 0x1b {
                    st = VtState::Escape;
                    kept = false;
                } else {
                    kept = false;
                }
            },
        }
        if kept {
            out.push(b);
        }
        proof {
            assert(st == strip_step(st_pre, b).0);
            assert(out@ =~= strip_fold(VtState::Ground, bytes@.take(i as int)).1 + strip_step(
                st_pre,
                b,
            ).1);
            lemma_strip_snoc(VtState::Ground, bytes@.take(i as int), b);
            assert(bytes@.take(i + 1) =~= bytes@.take(i as int).push(b));
        }
        i = i + 1;
    }
    proof {
        assert(bytes@.take(bytes@.len() as int) =~= bytes@);
    }
    out
}

} // verus!
