//! Tests for the keystroke decoder.

use voxterm::input::InputEvent;
use voxterm::input::InputParser;

fn parse_events(chunks: &[&[u8]]) -> Vec<InputEvent> {
    let mut parser = InputParser::new();
    let mut events = Vec::new();
    for chunk in chunks {
        parser.consume_bytes(chunk, &mut events);
        parser.flush_pending(&mut events);
    }
    events
}

#[test]
fn input_parser_emits_bytes_and_controls() {
    let events = parse_events(&[b"hi\x12there"]);
    assert_eq!(
        events,
        vec![
            InputEvent::Bytes(b"hi".to_vec()),
            InputEvent::VoiceTrigger,
            InputEvent::Bytes(b"there".to_vec())
        ]
    );
}

#[test]
fn input_parser_maps_control_keys() {
    let mappings = vec![
        (0x11, InputEvent::Exit),
        (0x12, InputEvent::VoiceTrigger),
        (0x16, InputEvent::ToggleAutoVoice),
        (0x14, InputEvent::ToggleSendMode),
        (0x1d, InputEvent::IncreaseSensitivity),
        (0x1c, InputEvent::DecreaseSensitivity),
        (0x1f, InputEvent::DecreaseSensitivity),
        (0x0a, InputEvent::EnterKey),
    ];

    for (byte, expected) in mappings {
        let events = parse_events(&[&[byte]]);
        assert_eq!(events, vec![expected]);
    }
}

#[test]
fn input_parser_skips_lf_after_cr() {
    let events = parse_events(&[&[0x0d], &[0x0a]]);
    assert_eq!(events, vec![InputEvent::EnterKey]);
}

#[test]
fn input_parser_keeps_non_lf_after_cr() {
    let events = parse_events(&[&[0x0d, b'x']]);
    assert_eq!(
        events,
        vec![InputEvent::EnterKey, InputEvent::Bytes(b"x".to_vec())]
    );
}

#[test]
fn input_parser_drops_csi_u_sequences() {
    let events = parse_events(&[b"\x1b[48;0;0u"]);
    assert!(events.is_empty());
}

#[test]
fn input_parser_preserves_arrow_sequences() {
    let events = parse_events(&[b"\x1b[A"]);
    assert_eq!(events, vec![InputEvent::Bytes(b"\x1b[A".to_vec())]);
}

#[test]
fn input_parser_filters_csi_u_between_text() {
    let events = parse_events(&[b"a\x1b[48;0;0ub"]);
    assert_eq!(
        events,
        vec![
            InputEvent::Bytes(b"a".to_vec()),
            InputEvent::Bytes(b"b".to_vec())
        ]
    );
}

#[test]
fn input_parser_preserves_alt_keys() {
    let events = parse_events(&[b"\x1bx"]);
    assert_eq!(events, vec![InputEvent::Bytes(b"\x1bx".to_vec())]);
}

#[test]
fn input_parser_flushes_overlong_escapes() {
    let mut bytes: Vec<u8> = vec![0x1b, b'['];
    for _ in 0..40 {
        bytes.push(b'1');
    }
    let events = parse_events(&[&bytes]);
    assert_eq!(events.len(), 1);
    match &events[0] {
        InputEvent::Bytes(payload) => {
            assert_eq!(payload[0], 0x1b);
            assert_eq!(payload.len(), bytes.len());
        }
        other => panic!("unexpected event {:?}", other),
    }
}

#[test]
fn input_parser_crlf_in_one_chunk_is_one_enter() {
    let events = parse_events(&[&[0x0d, 0x0a]]);
    assert_eq!(events, vec![InputEvent::EnterKey]);
}
