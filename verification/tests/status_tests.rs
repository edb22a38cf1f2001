//! Tests for status sanitisation, the bottom-row escape sequences and the
//! deferred status painter.

use voxterm::status::StatusPainter;
use voxterm::status::clear_status_line;
use voxterm::status::sanitize_status;
use voxterm::status::truncate_status;
use voxterm::status::write_status_line;

fn contains_subslice(haystack: &[u8], needle: &[u8]) -> bool {
    if needle.is_empty() {
        return true;
    }
    haystack
        .windows(needle.len())
        .any(|window| window == needle)
}

#[test]
fn status_helpers_sanitize_and_truncate() {
    let sanitized = sanitize_status("ok\tbad\n");
    assert_eq!(sanitized, "ok bad ");
    assert_eq!(truncate_status("hello", 0), "");
    assert_eq!(truncate_status("hello", 2), "he");
}

#[test]
fn sanitize_maps_wide_characters_to_single_spaces() {
    assert_eq!(sanitize_status("a\u{2022}b"), "a b");
}

#[test]
fn write_and_clear_status_line_respect_dimensions() {
    let buf = write_status_line("hi", 0, 10);
    assert!(buf.is_empty());

    let buf = write_status_line("hi", 2, 0);
    assert!(buf.is_empty());

    let buf = write_status_line("hi", 2, 10);
    assert!(contains_subslice(&buf, b"\x1b[2;1H"));
    assert!(contains_subslice(&buf, b"hi"));

    let buf = clear_status_line(2, 10);
    assert!(contains_subslice(&buf, b"\x1b[2;1H"));

    let buf = clear_status_line(2, 0);
    assert!(buf.is_empty());
}

#[test]
fn write_status_line_truncates_to_the_column_count() {
    let buf = write_status_line("abcdef", 3, 4);
    assert!(contains_subslice(&buf, b"abcd"));
    assert!(!contains_subslice(&buf, b"abcde"));
}

#[test]
fn painter_defers_while_output_streams() {
    let mut painter = StatusPainter::new(0);
    let painted = painter.on_resize(24, 80, 0);
    assert!(painted.is_none());

    // Status queued while output is streaming: deferred.
    painter.on_pty_output(10);
    let painted = painter.on_status("voice ready".to_string(), 20);
    assert!(painted.is_none());

    // Output keeps streaming: still deferred before 500 ms.
    painter.on_pty_output(40);
    assert!(painter.on_tick(60).is_none());

    // A 50 ms lull: painted at the next check.
    let painted = painter.on_tick(95).expect("painted after the lull");
    assert!(contains_subslice(&painted, b"voice ready"));
    assert!(contains_subslice(&painted, b"\x1b[24;1H"));
}

#[test]
fn painter_repaints_at_most_every_half_second_under_steady_output() {
    let mut painter = StatusPainter::new(0);
    assert!(painter.on_resize(24, 80, 0).is_none());
    painter.on_pty_output(10);
    assert!(painter.on_status("steady".to_string(), 20).is_none());

    // Output arrives every 20 ms, so the 50 ms lull never comes.
    let mut now = 20;
    let mut first_paint = None;
    while now < 1000 {
        now += 20;
        painter.on_pty_output(now);
        if let Some(bytes) = painter.on_tick(now + 1) {
            first_paint = Some((now + 1, bytes));
            break;
        }
    }
    let (painted_at, bytes) = first_paint.expect("painted eventually");
    assert!(painted_at >= 500);
    assert!(contains_subslice(&bytes, b"steady"));
}

#[test]
fn painter_clear_erases_the_row() {
    let mut painter = StatusPainter::new(0);
    assert!(painter.on_resize(24, 80, 0).is_none());
    let painted = painter
        .on_status("shown".to_string(), 100)
        .expect("painted at once when output is quiet");
    assert!(contains_subslice(&painted, b"shown"));

    let cleared = painter.on_clear(700).expect("clear painted");
    assert!(contains_subslice(&cleared, b"\x1b[2K"));
    assert!(!contains_subslice(&cleared, b"shown"));
}
