//! Voice-enabled terminal overlay core.
//!
//! The library holds the decision logic of an overlay that wraps an
//! interactive child CLI running under a pseudo-terminal: decoding raw
//! keystrokes into events, tracking the child's prompt line in its output,
//! managing the voice-capture lifecycle, queueing and batching transcripts,
//! and rendering a one-line status overlay.  All I/O (terminal, PTY, audio)
//! stays outside; the functions here work on plain values and carry
//! machine-checked contracts.

use vstd::prelude::*;

pub mod ansi;
pub mod banner;
pub mod coordinator;
pub mod input;
pub mod pattern;
pub mod prompt;
pub mod status;
pub mod text;
pub mod transcript;
pub mod voice;

verus! {

/// Returns the crate version shown in banners.
pub fn version() -> (r: String)
    ensures
        r@ =~= "0.1.0"@,
{
    String::from_str("0.1.0")
}

} // verus!
