use openhuman_meet::meet_headless::caption::{
    drain_command, drained_rows, parse_caption_rows, CaptionCounters, CaptionDedup, CaptionRow,
    DRAIN_SCRIPT, MAX_CONSECUTIVE_ERRORS, MAX_SEEN_ROWS, POLL_INTERVAL_MS,
};
use openhuman_meet::meet_headless::polling::{PollAction, PollEvent, PollLoop};
use serde_json::Value;

fn json(text: &str) -> Value {
    serde_json::from_str(text).unwrap()
}

fn row(speaker: &str, text: &str) -> CaptionRow {
    CaptionRow { speaker: speaker.to_string(), text: text.to_string() }
}

// ── Reading ─────────────────────────────────────────────────────────

#[test]
fn parses_speaker_and_text_rows() {
    let v = json(
        r#"[
            {"speaker": "Alice", "text": "Hello there"},
            {"speaker": "Bob",   "text": "Hi Alice"}
        ]"#,
    );
    let rows = parse_caption_rows(&v);
    assert_eq!(rows.len(), 2);
    assert_eq!(rows[0].speaker, "Alice");
    assert_eq!(rows[0].text, "Hello there");
    assert_eq!(rows[1].text, "Hi Alice");
}

#[test]
fn skips_rows_with_empty_text() {
    let v = json(
        r#"[
            {"speaker": "Alice", "text": "   "},
            {"speaker": "Bob",   "text": "real caption"}
        ]"#,
    );
    let rows = parse_caption_rows(&v);
    assert_eq!(rows.len(), 1);
    assert_eq!(rows[0].speaker, "Bob");
}

#[test]
fn missing_speaker_defaults_to_empty() {
    let v = json(r#"[{"text": "no speaker here"}]"#);
    let rows = parse_caption_rows(&v);
    assert_eq!(rows.len(), 1);
    assert_eq!(rows[0].speaker, "");
}

#[test]
fn non_array_value_yields_empty() {
    assert!(parse_caption_rows(&Value::Null).is_empty());
    assert!(parse_caption_rows(&json("{}")).is_empty());
    assert!(parse_caption_rows(&json(r#""oops""#)).is_empty());
}

#[test]
fn drops_rows_with_no_text_field() {
    let v = json(r#"[{"speaker": "x"}, {"text": "ok now"}]"#);
    let rows = parse_caption_rows(&v);
    assert_eq!(rows.len(), 1);
    assert_eq!(rows[0].text, "ok now");
}

#[test]
fn caption_parsing_real_world_structure() {
    let v = json(
        r#"[
            {"speaker": "Alice", "text": "Hey everyone, let's get started"},
            {"speaker": "", "text": "Sure, I'll share my screen"},
            {"speaker": "Bob", "text": "Can you see my screen?"},
            {"speaker": "Alice", "text": "Yes, looks good"},
            {"speaker": "Charlie", "text": "Sorry I'm late"}
        ]"#,
    );
    let rows = parse_caption_rows(&v);
    assert_eq!(rows.len(), 5);
    assert_eq!(rows[0].speaker, "Alice");
    assert_eq!(rows[1].speaker, "");
    assert_eq!(rows[2].text, "Can you see my screen?");
}

#[test]
fn caption_parsing_mixed_valid_and_invalid() {
    let v = json(
        r#"[
            {"speaker": "Alice", "text": "Valid caption"},
            {"speaker": "Bob", "text": ""},
            {"text": "No speaker but valid text"},
            {"speaker": "", "text": "   "},
            "not an object",
            {"speaker": "Charlie", "text": "Also valid"}
        ]"#,
    );
    let rows = parse_caption_rows(&v);
    assert_eq!(rows.len(), 3);
    assert_eq!(rows[0].text, "Valid caption");
    assert_eq!(rows[1].text, "No speaker but valid text");
    assert_eq!(rows[2].text, "Also valid");
}

#[test]
fn caption_parsing_empty_and_null() {
    assert!(parse_caption_rows(&Value::Null).is_empty());
    assert!(parse_caption_rows(&json("[]")).is_empty());
    assert!(parse_caption_rows(&json(r#""string""#)).is_empty());
    assert!(parse_caption_rows(&json("42")).is_empty());
}

#[test]
fn texts_are_trimmed_and_speakers_are_not() {
    let v = json(r#"[{"speaker": " Al ", "text": "\u00a0hi\t"}, {"speaker": 3, "text": "x"}]"#);
    assert_eq!(parse_caption_rows(&v), vec![row(" Al ", "hi"), row("", "x")]);
}

#[test]
fn captions_are_drained_by_evaluation() {
    let command = drain_command("S");
    assert_eq!(command.method, "Runtime.evaluate");
    assert_eq!(command.session_id.as_deref(), Some("S"));
    assert_eq!(command.params["expression"], DRAIN_SCRIPT);
    assert_eq!(command.params["awaitPromise"], false);
    let reply = json(r#"{"result": {"type": "object", "value": [{"text": "a b"}]}}"#);
    assert_eq!(drained_rows(&reply), vec![row("", "a b")]);
    assert!(drained_rows(&json(r#"{"result": {}}"#)).is_empty());
    assert!(drained_rows(&json("null")).is_empty());
}

// ── Handing each row on once ────────────────────────────────────────

#[test]
fn a_row_is_handed_on_once() {
    let mut dedup = CaptionDedup::new();
    let page = vec![row("A", "one"), row("B", "two"), row("A", "one")];
    assert_eq!(dedup.new_rows(&page), vec![row("A", "one"), row("B", "two")]);
    assert_eq!(dedup.accept(&page, 2), 2);
    assert!(dedup.new_rows(&page).is_empty());
    // The line grew, so it is a new one; the same text of another speaker too.
    let later = vec![row("A", "one more"), row("B", "two"), row("C", "two")];
    assert_eq!(dedup.new_rows(&later), vec![row("A", "one more"), row("C", "two")]);
}

#[test]
fn rows_that_were_refused_come_again() {
    let mut dedup = CaptionDedup::new();
    let page = vec![row("A", "one"), row("A", "two"), row("A", "three")];
    assert_eq!(dedup.accept(&page, 1), 1);
    assert_eq!(dedup.new_rows(&page), vec![row("A", "two"), row("A", "three")]);
    assert_eq!(dedup.accept(&page, 0), 0);
    assert_eq!(dedup.new_rows(&page).len(), 2);
}

#[test]
fn the_oldest_row_is_forgotten_first() {
    let mut dedup = CaptionDedup::new();
    let many: Vec<CaptionRow> = (0..=MAX_SEEN_ROWS).map(|i| row("A", &format!("line {i}"))).collect();
    assert_eq!(dedup.accept(&many, many.len()), 201);
    assert_eq!(dedup.new_rows(&many[1..]), vec![]);
    assert_eq!(dedup.new_rows(&many[..1]), vec![row("A", "line 0")]);
}

#[test]
fn a_page_stays_quiet_after_a_long_call() {
    let mut dedup = CaptionDedup::new();
    let old: Vec<CaptionRow> = (0..MAX_SEEN_ROWS).map(|i| row("A", &format!("line {i}"))).collect();
    dedup.accept(&old, old.len());
    let page = vec![row("A", "new"), row("B", "newer"), row("A", "line 199")];
    assert_eq!(dedup.accept(&page, page.len()), 2);
    assert!(dedup.new_rows(&page).is_empty());
    // A row that went out of memory for a new one comes again.
    let page = vec![row("A", "line 2"), row("B", "newest")];
    assert_eq!(dedup.accept(&page, page.len()), 1);
    assert_eq!(dedup.new_rows(&page), vec![row("A", "line 2")]);
}

#[test]
fn counters_count_open_sessions() {
    let mut counters = CaptionCounters::new();
    counters.count("r", 3);
    assert_eq!(counters.take_seen_count("r"), 0);
    counters.open("r");
    counters.open("s");
    counters.count("r", 3);
    counters.count("r", 4);
    assert_eq!(counters.take_seen_count("r"), 7);
    assert_eq!(counters.take_seen_count("r"), 0);
    assert_eq!(counters.take_seen_count("s"), 0);
}

// ── The polling loop ────────────────────────────────────────────────

/// One round in which the poll fails.
fn failing_round(errors: &mut PollLoop) -> PollAction {
    assert_eq!(errors.step(PollEvent::Ticked), PollAction::Poll);
    let action = errors.step(PollEvent::Failed);
    if action != PollAction::Stop {
        assert_eq!(errors.step(PollEvent::BackoffOver), PollAction::AwaitTick);
    }
    action
}

#[test]
fn waits_double_up_to_sixteen_seconds() {
    let mut errors = PollLoop::new(MAX_CONSECUTIVE_ERRORS);
    let waits: Vec<PollAction> = (0..10).map(|_| failing_round(&mut errors)).collect();
    assert_eq!(
        waits,
        vec![
            PollAction::Backoff(500),
            PollAction::Backoff(1_000),
            PollAction::Backoff(2_000),
            PollAction::Backoff(4_000),
            PollAction::Backoff(8_000),
            PollAction::Backoff(16_000),
            PollAction::Backoff(16_000),
            PollAction::Backoff(16_000),
            PollAction::Backoff(16_000),
            PollAction::Stop,
        ]
    );
    assert_eq!(errors.step(PollEvent::Ticked), PollAction::Stop);
    assert_eq!(POLL_INTERVAL_MS, 500);
}

#[test]
fn a_success_ends_the_row_of_errors() {
    let mut errors = PollLoop::new(3);
    assert_eq!(failing_round(&mut errors), PollAction::Backoff(500));
    assert_eq!(failing_round(&mut errors), PollAction::Backoff(1_000));
    assert_eq!(errors.step(PollEvent::Ticked), PollAction::Poll);
    assert_eq!(errors.step(PollEvent::Succeeded), PollAction::AwaitTick);
    assert_eq!(failing_round(&mut errors), PollAction::Backoff(500));
    assert_eq!(failing_round(&mut errors), PollAction::Backoff(1_000));
    assert_eq!(failing_round(&mut errors), PollAction::Stop);
}

#[test]
fn a_shutdown_ends_a_wait() {
    let mut idle = PollLoop::new(3);
    assert_eq!(idle.step(PollEvent::Shutdown), PollAction::Stop);
    let mut waiting = PollLoop::new(3);
    waiting.step(PollEvent::Ticked);
    assert_eq!(waiting.step(PollEvent::Failed), PollAction::Backoff(500));
    assert_eq!(waiting.step(PollEvent::Shutdown), PollAction::Stop);
    assert_eq!(waiting.step(PollEvent::BackoffOver), PollAction::Stop);
}
