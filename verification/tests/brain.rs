use openhuman_meet::meet_agent::brain::{
    pick_ack_phrase, recent_dialog_history, CAPTION_TURN_DELAY_MS, CONTEXT_EVENT_WINDOW,
    MEETING_SYSTEM_PROMPT, MIN_TURN_SAMPLES, REPLY_MAX_TOKENS, SAMPLE_RATE_HZ,
};
use openhuman_meet::meet_agent::turn::{
    advance, begin_caption_turn, begin_turn, SessionEffect, TurnAction, TurnEvent, TurnStep,
};
use openhuman_meet::meet_agent::types::{SessionEvent, SessionEventKind};

fn event(kind: SessionEventKind, text: &str) -> SessionEvent {
    SessionEvent { kind, text: text.into(), timestamp_ms: 0 }
}

/// The log entries among some effects.
fn records(effects: &[SessionEffect]) -> Vec<(SessionEventKind, String)> {
    effects
        .iter()
        .filter_map(|e| match e {
            SessionEffect::Record { kind, text } => Some((*kind, text.clone())),
            _ => None,
        })
        .collect()
}

fn turns_counted(effects: &[SessionEffect]) -> usize {
    effects.iter().filter(|e| matches!(e, SessionEffect::CountTurn)).count()
}

/// Runs a turn to its end on fixed answers; gives the effects in order and
/// whether it came to anything.
fn run(
    first: TurnStep,
    transcript: Result<&str, &str>,
    reply: Result<&str, &str>,
    speech: Result<Vec<i16>, &str>,
) -> (Vec<SessionEffect>, bool) {
    let mut all = Vec::new();
    let mut step = first;
    loop {
        all.extend(step.effects);
        let event = match step.action {
            TurnAction::Transcribe { sample_rate } => {
                assert_eq!(sample_rate, SAMPLE_RATE_HZ);
                TurnEvent::Transcribed(
                    transcript.map(|s| s.to_string()).map_err(|e| e.to_string()),
                )
            }
            TurnAction::StubTranscript => {
                TurnEvent::StubTranscribed("(heard ~1.0s of audio)".to_string())
            }
            TurnAction::Reply { system_prompt, max_tokens, .. } => {
                assert_eq!(system_prompt, MEETING_SYSTEM_PROMPT);
                assert_eq!(max_tokens, REPLY_MAX_TOKENS);
                TurnEvent::Replied(reply.map(|s| s.to_string()).map_err(|e| e.to_string()))
            }
            TurnAction::Synthesize { sample_rate, .. } => {
                assert_eq!(sample_rate, SAMPLE_RATE_HZ);
                TurnEvent::Synthesized(speech.clone().map_err(|e| e.to_string()))
            }
            TurnAction::StubSpeech { text } => {
                assert!(!text.is_empty());
                TurnEvent::StubSynthesized(vec![7; 3200])
            }
            TurnAction::Finish { ran } => return (all, ran),
        };
        step = advance(step.state, event);
    }
}

#[test]
fn recent_dialog_history_maps_event_kinds_to_chat_roles() {
    let now = 0;
    let events = vec![
        SessionEvent {
            kind: SessionEventKind::Heard,
            text: "Alice: how's the build going".into(),
            timestamp_ms: now,
        },
        SessionEvent {
            kind: SessionEventKind::Note,
            text: "wake word".into(),
            timestamp_ms: now,
        },
        SessionEvent {
            kind: SessionEventKind::Spoke,
            text: "Build is green.".into(),
            timestamp_ms: now,
        },
        SessionEvent {
            kind: SessionEventKind::Heard,
            text: "Bob: ship it".into(),
            timestamp_ms: now,
        },
    ];
    let history = recent_dialog_history(&events, 10);
    assert_eq!(history.len(), 3, "Note events are dropped");
    assert_eq!(history[0].role, "user");
    assert_eq!(history[1].role, "assistant");
    assert_eq!(history[2].role, "user");
    assert_eq!(history[2].content, "Bob: ship it");
}

#[test]
fn recent_dialog_history_caps_at_window_keeping_most_recent() {
    let events: Vec<SessionEvent> = (0..30)
        .map(|i| SessionEvent {
            kind: SessionEventKind::Heard,
            text: format!("line {i}"),
            timestamp_ms: 0,
        })
        .collect();
    let history = recent_dialog_history(&events, 5);
    assert_eq!(history.len(), 5);
    assert_eq!(history[0].content, "line 25");
    assert_eq!(history[4].content, "line 29");
}

#[test]
fn recent_dialog_history_trims_and_drops_blank_lines() {
    let events = vec![
        event(SessionEventKind::Heard, "  hi there \n"),
        event(SessionEventKind::Spoke, "   "),
        event(SessionEventKind::Spoke, "hello"),
    ];
    let history = recent_dialog_history(&events, 12);
    assert_eq!(history.len(), 2);
    assert_eq!(history[0].content, "hi there");
    assert_eq!(history[1].content, "hello");
    assert!(recent_dialog_history(&events, 0).is_empty());
}

#[test]
fn run_turn_skips_short_buffers() {
    let (effects, ran) = run(begin_turn(&[0; 800], &[]), Ok("x"), Ok("y"), Ok(vec![1]));
    assert_eq!(ran, false);
    assert!(effects.is_empty());
}

#[test]
fn run_turn_falls_back_to_stub_without_backend() {
    let (effects, ran) = run(
        begin_turn(&vec![1000; 16_000], &[]),
        Err("no backend"),
        Err("no backend"),
        Err("no backend"),
    );
    assert_eq!(ran, true);
    let log = records(&effects);
    assert!(log.iter().any(|(k, _)| *k == SessionEventKind::Heard));
    assert!(log.iter().any(|(k, _)| *k == SessionEventKind::Spoke));
    assert_eq!(turns_counted(&effects), 1);
    let spoken: usize = effects
        .iter()
        .map(|e| match e {
            SessionEffect::Enqueue { samples, done } => {
                assert!(*done);
                samples.len()
            }
            _ => 0,
        })
        .sum();
    assert_eq!(spoken, 3200);
    assert_eq!(
        log,
        vec![
            (SessionEventKind::Note, "STT failure (using stub): no backend".to_string()),
            (SessionEventKind::Note, "LLM failure (using stub): no backend".to_string()),
            (SessionEventKind::Note, "TTS failure (using stub): no backend".to_string()),
            (SessionEventKind::Heard, "(heard ~1.0s of audio)".to_string()),
            (SessionEventKind::Spoke, "I'm listening.".to_string()),
        ]
    );
}

#[test]
fn a_turn_needs_a_quarter_of_a_second() {
    assert_eq!(MIN_TURN_SAMPLES, 4_000);
    let (_, short) = run(begin_turn(&vec![0; 3_999], &[]), Ok("hi"), Ok("yo"), Ok(vec![1]));
    let (_, long) = run(begin_turn(&vec![0; 4_000], &[]), Ok("hi"), Ok("yo"), Ok(vec![1]));
    assert!(!short);
    assert!(long);
}

#[test]
fn a_blank_transcript_makes_no_turn() {
    let (effects, ran) = run(begin_turn(&vec![0; 4_000], &[]), Ok("  \n"), Ok("yo"), Ok(vec![1]));
    assert!(!ran);
    assert!(effects.is_empty());
}

#[test]
fn a_turn_records_what_was_heard_and_said() {
    let (effects, ran) = run(begin_turn(&vec![0; 4_000], &[]), Ok("hi"), Ok("yo"), Ok(vec![1, 2]));
    assert!(ran);
    assert_eq!(effects.len(), 4);
    assert!(
        matches!(&effects[0], SessionEffect::Record { kind: SessionEventKind::Heard, text } if text == "hi")
    );
    assert!(
        matches!(&effects[1], SessionEffect::Record { kind: SessionEventKind::Spoke, text } if text == "yo")
    );
    assert!(
        matches!(&effects[2], SessionEffect::Enqueue { samples, done: true } if *samples == vec![1, 2])
    );
    assert!(matches!(&effects[3], SessionEffect::CountTurn));
}

#[test]
fn an_empty_reply_is_noted() {
    let (effects, ran) = run(begin_turn(&vec![0; 4_000], &[]), Ok("hi"), Ok(""), Ok(vec![1]));
    assert!(ran);
    assert_eq!(
        records(&effects),
        vec![
            (SessionEventKind::Heard, "hi".to_string()),
            (SessionEventKind::Note, "agent declined to respond".to_string()),
        ]
    );
    assert_eq!(turns_counted(&effects), 1);
}

#[test]
fn a_blank_reply_is_logged_but_not_spoken() {
    let (effects, ran) = run(begin_turn(&vec![0; 4_000], &[]), Ok("hi"), Ok("  "), Ok(vec![1]));
    assert!(ran);
    assert_eq!(
        records(&effects),
        vec![
            (SessionEventKind::Heard, "hi".to_string()),
            (SessionEventKind::Spoke, "  ".to_string()),
        ]
    );
    assert!(!effects.iter().any(|e| matches!(e, SessionEffect::Enqueue { .. })));
}

#[test]
fn a_caption_turn_needs_a_prompt() {
    assert_eq!(CAPTION_TURN_DELAY_MS, 1_500);
    let (effects, ran) = run(begin_caption_turn(None, &[]), Ok("x"), Ok("y"), Ok(vec![1]));
    assert!(!ran);
    assert!(effects.is_empty());
}

#[test]
fn a_caption_turn_acknowledges_when_the_model_fails() {
    let (effects, ran) = run(
        begin_caption_turn(Some("note this".to_string()), &[]),
        Ok("unused"),
        Err("down"),
        Ok(vec![5]),
    );
    assert!(ran);
    let ack = pick_ack_phrase("note this").to_string();
    assert_eq!(
        records(&effects),
        vec![
            (SessionEventKind::Note, "LLM failure (using ack): down".to_string()),
            (SessionEventKind::Heard, "note this".to_string()),
            (SessionEventKind::Spoke, ack),
        ]
    );
}

#[test]
fn the_model_is_given_the_last_lines_of_the_conversation() {
    let events: Vec<SessionEvent> =
        (0..20).map(|i| event(SessionEventKind::Heard, &format!("line {i}"))).collect();
    match begin_caption_turn(Some("hey".to_string()), &events).action {
        TurnAction::Reply { prompt, history, .. } => {
            assert_eq!(prompt, "hey");
            assert_eq!(history.len(), CONTEXT_EVENT_WINDOW);
            assert_eq!(history[0].content, "line 8");
        }
        other => panic!("unexpected action: {other:?}"),
    }
}

#[test]
fn an_answer_out_of_turn_ends_it() {
    let step = advance(
        begin_turn(&vec![0; 4_000], &[]).state,
        TurnEvent::Replied(Ok("early".to_string())),
    );
    assert!(matches!(step.action, TurnAction::Finish { ran: false }));
    assert!(step.effects.is_empty());
}

#[test]
fn ack_phrases_follow_the_bytes_of_the_prompt() {
    // 'a' is 97, and 97 mod 5 is 2.
    assert_eq!(pick_ack_phrase("a"), "Adding that.");
    assert_eq!(pick_ack_phrase("d"), "Got it.");
    assert_eq!(pick_ack_phrase("e"), "Noted.");
    assert_eq!(pick_ack_phrase("b"), "On it.");
    assert_eq!(pick_ack_phrase("c"), "Captured.");
    assert_eq!(pick_ack_phrase("   "), "");
    assert_eq!(pick_ack_phrase(""), "");
    // Two bytes, 0xC3 and 0xA9: 364 mod 5 is 4.
    assert_eq!(pick_ack_phrase("é"), "Captured.");
}
