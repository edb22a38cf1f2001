//! Tests for prompt tracking, pattern resolution and the prompt log.

use voxterm::pattern::resolve_prompt_log;
use voxterm::pattern::resolve_prompt_regex;
use voxterm::prompt::LogBudget;
use voxterm::prompt::PROMPT_LOG_MAX_BYTES;
use voxterm::prompt::PromptTracker;
use voxterm::prompt::format_log_line;
use voxterm::prompt::looks_like_prompt;

#[test]
fn prompt_tracker_feed_output_handles_control_bytes() {
    let mut tracker = PromptTracker::new(None, 0);
    tracker.feed_output(b"ab\rde\tf\n", 100);
    assert_eq!(tracker.last_line().as_deref(), Some("de f"));
    assert!(tracker.has_seen_output());
}

#[test]
fn prompt_tracker_idle_ready_on_threshold() {
    let mut tracker = PromptTracker::new(None, 0);
    tracker.note_activity(4000);
    assert!(tracker.idle_ready(5000, 1000));
}

#[test]
fn prompt_tracker_learns_prompt_on_idle() {
    let mut tracker = PromptTracker::new(None, 0);
    tracker.feed_output(b"codex> ", 1000);
    tracker.on_idle(3000, 1000);
    assert!(tracker.last_prompt_seen_at().is_some());
}

#[test]
fn prompt_tracker_matches_regex() {
    let regex = resolve_prompt_regex(Some("^codex> $".to_string()), None)
        .expect("regex should compile");
    let mut tracker = PromptTracker::new(regex, 0);
    tracker.feed_output(b"codex> \n", 100);
    assert!(tracker.last_prompt_seen_at().is_some());
}

#[test]
fn prompt_tracker_ignores_non_graphic_bytes() {
    let mut tracker = PromptTracker::new(None, 0);
    tracker.feed_output(b"hi\xC2\xA0there\n", 100);
    assert_eq!(tracker.last_line().as_deref(), Some("hithere"));
}

#[test]
fn prompt_tracker_on_idle_triggers_on_threshold() {
    let mut tracker = PromptTracker::new(None, 0);
    tracker.feed_output(b"codex> ", 1000);
    tracker.on_idle(2000, 1000);
    assert!(tracker.last_prompt_seen_at().is_some());
}

#[test]
fn prompt_tracker_on_idle_skips_when_regex_present() {
    let regex = resolve_prompt_regex(Some("^codex> $".to_string()), None)
        .expect("regex should compile");
    let mut tracker = PromptTracker::new(regex, 0);
    tracker.feed_output(b"not a prompt", 1000);
    tracker.on_idle(2000, 1000);
    assert!(tracker.last_prompt_seen_at().is_none());
}

#[test]
fn prompt_tracker_matches_learned_prompt() {
    let mut tracker = PromptTracker::new(None, 0);
    tracker.feed_output(b"codex> ", 1000);
    tracker.on_idle(3000, 1000);
    assert_eq!(tracker.learned_prompt().as_deref(), Some("codex> "));
    assert!(tracker.matches_prompt("codex> "));
}

#[test]
fn prompt_tracker_rejects_mismatched_prompt() {
    let mut tracker = PromptTracker::new(None, 0);
    tracker.feed_output(b"codex> ", 1000);
    tracker.on_idle(3000, 1000);
    assert!(!tracker.matches_prompt("nope> "));
}

#[test]
fn prompt_tracker_has_seen_output_starts_false() {
    let tracker = PromptTracker::new(None, 0);
    assert!(!tracker.has_seen_output());
}

#[test]
fn prompt_learning_scenario() {
    // The child prints its prompt and goes quiet for a second.
    let mut tracker = PromptTracker::new(None, 0);
    tracker.feed_output(b"codex> ", 1000);
    tracker.on_idle(2000, 1000);
    assert_eq!(tracker.learned_prompt().as_deref(), Some("codex> "));
    assert!(tracker.last_prompt_seen_at().is_some());
}

#[test]
fn prompt_tracker_strips_color_codes() {
    let mut tracker = PromptTracker::new(None, 0);
    tracker.feed_output(b"\x1b[31mred\x1b[0m\n", 100);
    assert_eq!(tracker.last_line().as_deref(), Some("red"));
}

#[test]
fn prompt_tracker_strips_osc_titles() {
    let mut tracker = PromptTracker::new(None, 0);
    tracker.feed_output(b"\x1b]0;window title\x07ok\n", 100);
    assert_eq!(tracker.last_line().as_deref(), Some("ok"));
}

#[test]
fn prompt_tracker_carriage_return_restarts_the_line() {
    let mut tracker = PromptTracker::new(None, 0);
    tracker.feed_output(b"scratch\rfinal\n", 100);
    assert_eq!(tracker.last_line().as_deref(), Some("final"));
}

#[test]
fn prompt_regex_decides_matches_by_content() {
    let regex = resolve_prompt_regex(Some("^a+$".to_string()), None)
        .expect("regex should compile");
    let tracker = PromptTracker::new(regex, 0);
    assert!(tracker.matches_prompt("aaa"));
    assert!(!tracker.matches_prompt("b"));
    assert!(!tracker.matches_prompt("aab"));
}

#[test]
fn resolve_prompt_regex_honors_config() {
    let regex = resolve_prompt_regex(Some("^codex> $".to_string()), None)
        .expect("regex should compile");
    assert!(regex.is_some());
}

#[test]
fn resolve_prompt_regex_rejects_invalid() {
    assert!(resolve_prompt_regex(Some("[".to_string()), None).is_err());
}

#[test]
fn resolve_prompt_regex_falls_back_to_environment_value() {
    let regex = resolve_prompt_regex(None, Some("^env> $".to_string()))
        .expect("regex should compile");
    let regex = regex.expect("a pattern was given");
    assert_eq!(regex.pattern(), "^env> $");
}

#[test]
fn resolve_prompt_log_prefers_config() {
    let resolved = resolve_prompt_log(
        Some("/tmp/codex_prompt_override.log".to_string()),
        Some("/tmp/other.log".to_string()),
    );
    assert_eq!(
        resolved,
        Some("/tmp/codex_prompt_override.log".to_string())
    );
}

#[test]
fn resolve_prompt_log_defaults_to_none() {
    assert!(resolve_prompt_log(None, None).is_none());
}

#[test]
fn looks_like_prompt_wants_a_short_prompt_ending() {
    assert!(looks_like_prompt("codex> "));
    assert!(looks_like_prompt("$ "));
    assert!(looks_like_prompt("root#"));
    assert!(!looks_like_prompt(""));
    assert!(!looks_like_prompt("   "));
    assert!(!looks_like_prompt("plain text"));
    let long = "x".repeat(81) + ">";
    assert!(!looks_like_prompt(&long));
}

#[test]
fn format_log_line_stamps_and_terminates() {
    assert_eq!(format_log_line(5, "hello"), "[5] hello\n");
    assert_eq!(
        format_log_line(1700000000, "prompt_learned|line=codex> "),
        "[1700000000] prompt_learned|line=codex> \n"
    );
}

#[test]
fn log_budget_restarts_an_oversized_file() {
    let budget = LogBudget::new(PROMPT_LOG_MAX_BYTES + 1);
    assert_eq!(budget.bytes_written, 0);
    let budget = LogBudget::new(100);
    assert_eq!(budget.bytes_written, 100);
}

#[test]
fn log_budget_truncates_past_the_limit() {
    let mut budget = LogBudget::new(PROMPT_LOG_MAX_BYTES - 10);
    assert!(!budget.must_truncate(10));
    assert!(budget.must_truncate(11));
    budget.reset();
    assert!(!budget.must_truncate(11));
    budget.record_write(20);
    assert_eq!(budget.bytes_written, 20);
}

#[test]
fn prompt_log_records_learning() {
    let mut tracker = PromptTracker::new(None, 0);
    tracker.feed_output(b"codex> ", 1000);
    tracker.on_idle(2000, 1000);
    let log = tracker.take_log();
    assert_eq!(log.len(), 1);
    assert_eq!(log[0], "prompt_learned|line=codex> ");
    assert!(tracker.take_log().is_empty());
}

#[test]
fn prompt_log_records_line_matches() {
    let regex = resolve_prompt_regex(Some("^codex> $".to_string()), None)
        .expect("regex should compile");
    let mut tracker = PromptTracker::new(regex, 0);
    tracker.feed_output(b"codex> \n", 100);
    let log = tracker.take_log();
    assert_eq!(log.len(), 1);
    assert_eq!(log[0], "prompt_detected|reason=line_complete|line=codex> ");
}
