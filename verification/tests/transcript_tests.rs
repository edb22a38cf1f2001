//! Tests for the transcript queue, batching and send planning.

use voxterm::transcript::MAX_PENDING_TRANSCRIPTS;
use voxterm::transcript::PendingTranscript;
use voxterm::transcript::SendMode;
use voxterm::transcript::merge_pending_transcripts;
use voxterm::transcript::push_pending_transcript;
use voxterm::transcript::send_transcript;
use voxterm::voice::VoiceCaptureSource;

fn entry(text: &str, source: VoiceCaptureSource, mode: SendMode) -> PendingTranscript {
    PendingTranscript {
        text: text.to_string(),
        source,
        mode,
    }
}

#[test]
fn push_pending_transcript_drops_oldest_when_full() {
    let mut pending = Vec::new();
    for i in 0..MAX_PENDING_TRANSCRIPTS {
        let dropped = push_pending_transcript(
            &mut pending,
            entry(
                &format!("t{i}"),
                VoiceCaptureSource::Native,
                SendMode::Auto,
            ),
        );
        assert!(!dropped);
    }
    let dropped = push_pending_transcript(
        &mut pending,
        entry("last", VoiceCaptureSource::Native, SendMode::Auto),
    );
    assert!(dropped);
    assert_eq!(pending.len(), MAX_PENDING_TRANSCRIPTS);
    assert_eq!(pending.first().unwrap().text, "t1");
    assert_eq!(pending.last().unwrap().text, "last");
}

#[test]
fn queue_overflow_keeps_the_newest_five() {
    let mut pending = Vec::new();
    for i in 0..6 {
        push_pending_transcript(
            &mut pending,
            entry(
                &format!("t{i}"),
                VoiceCaptureSource::Native,
                SendMode::Insert,
            ),
        );
    }
    assert_eq!(pending.len(), 5);
    let texts: Vec<&str> = pending.iter().map(|p| p.text.as_str()).collect();
    assert_eq!(texts, vec!["t1", "t2", "t3", "t4", "t5"]);
}

#[test]
fn merge_joins_contiguous_same_mode_entries() {
    let mut pending = vec![
        entry("hello", VoiceCaptureSource::Native, SendMode::Auto),
        entry("world", VoiceCaptureSource::Native, SendMode::Auto),
    ];
    let batch = merge_pending_transcripts(&mut pending).expect("a batch");
    assert_eq!(batch.text, "hello world");
    assert_eq!(batch.label, "Rust pipeline");
    assert_eq!(batch.mode, SendMode::Auto);
    assert!(pending.is_empty());
}

#[test]
fn merge_stops_at_a_mode_change() {
    let mut pending = vec![
        entry("first", VoiceCaptureSource::Native, SendMode::Insert),
        entry("second", VoiceCaptureSource::Native, SendMode::Insert),
        entry("third", VoiceCaptureSource::Native, SendMode::Auto),
    ];
    let batch = merge_pending_transcripts(&mut pending).expect("a batch");
    assert_eq!(batch.text, "first second");
    assert_eq!(batch.mode, SendMode::Insert);
    assert_eq!(pending.len(), 1);
    assert_eq!(pending[0].text, "third");
    assert_eq!(pending[0].mode, SendMode::Auto);
}

#[test]
fn merge_skips_blank_entries() {
    let mut pending = vec![
        entry("  ", VoiceCaptureSource::Native, SendMode::Auto),
        entry(" hello ", VoiceCaptureSource::Native, SendMode::Auto),
    ];
    let batch = merge_pending_transcripts(&mut pending).expect("a batch");
    assert_eq!(batch.text, "hello");
    assert!(pending.is_empty());
}

#[test]
fn merge_of_all_blank_entries_yields_nothing() {
    let mut pending = vec![
        entry("  ", VoiceCaptureSource::Native, SendMode::Auto),
        entry("\t", VoiceCaptureSource::Native, SendMode::Auto),
    ];
    assert!(merge_pending_transcripts(&mut pending).is_none());
    assert!(pending.is_empty());
}

#[test]
fn merge_of_mixed_sources_is_labelled_mixed() {
    let mut pending = vec![
        entry("one", VoiceCaptureSource::Native, SendMode::Auto),
        entry("two", VoiceCaptureSource::Python, SendMode::Auto),
    ];
    let batch = merge_pending_transcripts(&mut pending).expect("a batch");
    assert_eq!(batch.label, "Mixed pipelines");
    assert_eq!(batch.text, "one two");
}

#[test]
fn merge_of_empty_queue_yields_nothing() {
    let mut pending: Vec<PendingTranscript> = Vec::new();
    assert!(merge_pending_transcripts(&mut pending).is_none());
}

#[test]
fn send_transcript_respects_mode_and_trims() {
    let sent = send_transcript(" hello ", SendMode::Auto).expect("a plan");
    assert!(sent.append_newline);
    assert_eq!(sent.text, "hello");

    let sent = send_transcript(" hi ", SendMode::Insert).expect("a plan");
    assert!(!sent.append_newline);
    assert_eq!(sent.text, "hi");

    assert!(send_transcript("   ", SendMode::Insert).is_none());
}
