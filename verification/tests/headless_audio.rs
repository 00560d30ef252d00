use base64::engine::general_purpose::STANDARD;
use base64::Engine;
use openhuman_meet::meet_headless::audio_bridge::{
    advance_tick, base64_to_pcm, begin_tick, evaluated_text, inject_command, inject_next,
    is_silence, pcm_to_base64, tick_command, InjectStage, TickAction, TickEvent, TickState,
    AUDIO_CAPTURE_SETUP_JS, AUDIO_PLAYBACK_SETUP_JS, MAX_CONSECUTIVE_ERRORS, POLL_INTERVAL_MS,
    SAMPLES_PER_TICK,
};
use serde_json::Value;

fn json(text: &str) -> Value {
    serde_json::from_str(text).unwrap()
}

fn page_says(s: &str) -> Value {
    let mut v = json(r#"{"result": {"type": "string"}}"#);
    v["result"]["value"] = Value::from(s);
    v
}

// ── Samples in base64 ───────────────────────────────────────────────

#[test]
fn pcm_to_base64_roundtrip() {
    let original: Vec<i16> = vec![0, 1000, -2000, 32767, -32768, 123];
    let b64 = pcm_to_base64(&original);
    let decoded = base64_to_pcm(&b64).unwrap();
    assert_eq!(original, decoded);
}

#[test]
fn base64_to_pcm_empty_string() {
    let result = base64_to_pcm("").unwrap();
    assert!(result.is_empty());
}

#[test]
fn base64_to_pcm_odd_length_rejected() {
    // "AA" decodes to a single byte — odd byte count for i16
    let one_byte_b64 = STANDARD.encode([0u8]);
    let err = base64_to_pcm(&one_byte_b64).unwrap_err();
    assert!(err.contains("odd byte length"));
    assert_eq!(err, "odd byte length 1");
}

#[test]
fn base64_to_pcm_names_the_error() {
    let err = base64_to_pcm("%%%%").unwrap_err();
    assert!(err.starts_with("base64: "), "got: {err}");
}

#[test]
fn samples_are_little_endian() {
    assert_eq!(pcm_to_base64(&[1, -1]), STANDARD.encode([1u8, 0, 255, 255]));
    assert_eq!(pcm_to_base64(&[]), "");
}

#[test]
fn pcm_pipeline_large_buffer_roundtrip() {
    // 10 seconds of audio at 16kHz = 160,000 samples
    let samples: Vec<i16> =
        (0..160_000).map(|i| ((i as f64 * 0.1).sin() * 16000.0) as i16).collect();
    let b64 = pcm_to_base64(&samples);
    let decoded = base64_to_pcm(&b64).unwrap();
    assert_eq!(samples, decoded, "large buffer roundtrip failed");
}

#[test]
fn pcm_pipeline_all_extremes() {
    let extremes: Vec<i16> = vec![i16::MIN, i16::MAX, 0, -1, 1];
    let b64 = pcm_to_base64(&extremes);
    let decoded = base64_to_pcm(&b64).unwrap();
    assert_eq!(extremes, decoded, "extreme values roundtrip failed");
}

// ── Silence ─────────────────────────────────────────────────────────

#[test]
fn is_silence_with_all_zeros() {
    let samples: Vec<i16> = vec![0, 0, 0, 0];
    assert!(is_silence(&samples, 0));
}

#[test]
fn is_silence_with_loud_sample() {
    let samples: Vec<i16> = vec![0, 0, 5000, 0];
    assert!(!is_silence(&samples, 100));
}

#[test]
fn silence_detection_threshold_boundary() {
    let samples: Vec<i16> = vec![99, -99, 0, 50, -50];
    assert!(is_silence(&samples, 100), "should be silent at threshold 100");
    assert!(!is_silence(&samples, 98), "should NOT be silent at threshold 98");
}

#[test]
fn silence_detection_single_loud_sample() {
    let samples: Vec<i16> = vec![0, 0, 0, 500, 0, 0, 0];
    assert!(is_silence(&samples, 500));
    assert!(!is_silence(&samples, 499));
}

#[test]
fn the_lowest_sample_is_louder_than_any_threshold() {
    assert!(!is_silence(&[i16::MIN], i16::MAX));
    assert!(is_silence(&[-i16::MAX], i16::MAX));
    assert!(is_silence(&[], -1));
    assert!(!is_silence(&[0], -1));
}

#[test]
fn samples_per_tick_sane() {
    assert_eq!(SAMPLES_PER_TICK, 1600);
}

#[test]
fn a_tick_holds_what_is_played_between_polls() {
    assert_eq!(SAMPLES_PER_TICK as u64, 16 * POLL_INTERVAL_MS);
    assert_eq!(MAX_CONSECUTIVE_ERRORS, 30);
}

// ── Scripts ─────────────────────────────────────────────────────────

#[test]
fn playback_js_reads_fake_camera_exports() {
    assert!(
        AUDIO_PLAYBACK_SETUP_JS.contains("window.__openhuman_fake_audio"),
        "playback JS must check for fake camera exports"
    );
}

#[test]
fn capture_js_uses_media_elements_not_mic() {
    assert!(
        !AUDIO_CAPTURE_SETUP_JS.contains("getUserMedia"),
        "capture JS must NOT use getUserMedia (should use MediaElementAudioSourceNode)"
    );
    assert!(
        AUDIO_CAPTURE_SETUP_JS.contains("MediaElementAudioSource"),
        "capture JS must use MediaElementAudioSourceNode"
    );
    assert!(
        AUDIO_CAPTURE_SETUP_JS.contains("querySelectorAll('audio, video'"),
        "capture JS must scan for audio/video elements"
    );
}

#[test]
fn playback_js_has_scheduling() {
    assert!(
        AUDIO_PLAYBACK_SETUP_JS.contains("nextStartTime"),
        "playback JS must use nextStartTime for jitter-free scheduling"
    );
}

// ── Setting up ──────────────────────────────────────────────────────

#[test]
fn injection_goes_through_four_stages() {
    let mut stage = InjectStage::Capture;
    let mut expressions = Vec::new();
    loop {
        let command = inject_command(stage, "S");
        assert_eq!(command.method, "Runtime.evaluate");
        assert_eq!(command.session_id.as_deref(), Some("S"));
        assert_eq!(command.params["returnByValue"], true);
        assert_eq!(command.params["awaitPromise"], stage == InjectStage::StartCapture);
        expressions.push(command.params["expression"].as_str().unwrap().to_string());
        match inject_next(stage, Ok(json("{}"))).unwrap() {
            Some(next) => stage = next,
            None => break,
        }
    }
    assert_eq!(
        expressions,
        vec![
            AUDIO_CAPTURE_SETUP_JS.to_string(),
            AUDIO_PLAYBACK_SETUP_JS.to_string(),
            "window.__openhuman_capture.start()".to_string(),
            "window.__openhuman_playback.init()".to_string(),
        ]
    );
}

#[test]
fn injection_errors_name_the_stage() {
    let failed = |stage| inject_next(stage, Err("gone".to_string())).unwrap_err();
    assert_eq!(failed(InjectStage::Capture), "[meet-headless-audio] inject capture: gone");
    assert_eq!(failed(InjectStage::Playback), "[meet-headless-audio] inject playback: gone");
    assert_eq!(failed(InjectStage::StartCapture), "[meet-headless-audio] capture.start(): gone");
    assert_eq!(failed(InjectStage::InitPlayback), "[meet-headless-audio] playback.init(): gone");
    let threw = json(r#"{"exceptionDetails": {"text": "Uncaught"}}"#);
    assert_eq!(
        inject_next(InjectStage::Playback, Ok(threw.clone())).unwrap_err(),
        r#"[meet-headless-audio] inject playback JS exception: {"text":"Uncaught"}"#
    );
    // An exception of the pipelines themselves is passed over.
    assert_eq!(
        inject_next(InjectStage::StartCapture, Ok(threw.clone())).unwrap(),
        Some(InjectStage::InitPlayback)
    );
    assert_eq!(inject_next(InjectStage::InitPlayback, Ok(threw)).unwrap(), None);
}

#[test]
fn an_evaluation_gives_text_or_an_exception() {
    assert_eq!(evaluated_text(&page_says("hi")).unwrap(), "hi");
    assert_eq!(evaluated_text(&json(r#"{"result": {"value": 3}}"#)).unwrap(), "");
    assert_eq!(evaluated_text(&json("{}")).unwrap(), "");
    assert_eq!(
        evaluated_text(&json(r#"{"exceptionDetails": 1, "result": {"value": "x"}}"#)).unwrap_err(),
        "JS exception: 1"
    );
}

// ── One round ───────────────────────────────────────────────────────

struct Round {
    pushed: Vec<Vec<i16>>,
    turns: usize,
    evaluated: Vec<String>,
    end: Result<(), String>,
}

fn round(
    drained: Result<Value, String>,
    taken: Result<bool, String>,
    said: Result<String, String>,
    fed: Result<Value, String>,
) -> Round {
    let mut out = Round { pushed: vec![], turns: 0, evaluated: vec![], end: Ok(()) };
    let mut step = begin_tick();
    loop {
        if step.start_turn {
            out.turns += 1;
        }
        let event = match step.action {
            TickAction::Evaluate(script) => {
                out.evaluated.push(script);
                TickEvent::Evaluated(match step.state {
                    TickState::Capturing => drained.clone(),
                    _ => fed.clone(),
                })
            }
            TickAction::Push(samples) => {
                out.pushed.push(samples);
                TickEvent::Pushed(taken.clone())
            }
            TickAction::Poll => TickEvent::Polled(said.clone()),
            TickAction::Finish(end) => {
                out.end = end;
                return out;
            }
        };
        step = advance_tick(step.state, event);
    }
}

#[test]
fn a_round_moves_audio_both_ways() {
    let heard = pcm_to_base64(&[1, 2, 3]);
    let r = round(Ok(page_says(&heard)), Ok(true), Ok("AAA=".to_string()), Ok(json("{}")));
    assert_eq!(r.pushed, vec![vec![1, 2, 3]]);
    assert_eq!(r.turns, 1);
    assert_eq!(
        r.evaluated,
        vec![
            "window.__openhuman_capture.drain()".to_string(),
            "window.__openhuman_playback.feed(\"AAA=\")".to_string(),
        ]
    );
    assert_eq!(r.end, Ok(()));
}

#[test]
fn a_round_evaluates_without_waiting_for_promises() {
    let command = tick_command("1 + 1", "S");
    assert_eq!(command.method, "Runtime.evaluate");
    assert_eq!(command.session_id.as_deref(), Some("S"));
    assert_eq!(
        command.params,
        json(r#"{"expression": "1 + 1", "returnByValue": true, "awaitPromise": false}"#)
    );
}

#[test]
fn a_quiet_round_does_nothing() {
    let r = round(Ok(page_says("")), Ok(true), Ok(String::new()), Ok(json("{}")));
    assert!(r.pushed.is_empty());
    assert_eq!(r.turns, 0);
    assert_eq!(r.evaluated.len(), 1);
    assert_eq!(r.end, Ok(()));
}

#[test]
fn a_round_goes_on_without_a_session() {
    let heard = pcm_to_base64(&[4]);
    let r = round(
        Ok(page_says(&heard)),
        Err("no session".to_string()),
        Err("no session".to_string()),
        Ok(json("{}")),
    );
    assert_eq!(r.pushed, vec![vec![4]]);
    assert_eq!(r.turns, 0);
    assert_eq!(r.end, Ok(()));
    let r = round(
        Ok(page_says(&heard)),
        Err("no session".to_string()),
        Ok("AA==".to_string()),
        Ok(json("{}")),
    );
    assert_eq!(r.evaluated.len(), 2);
}

#[test]
fn a_turn_starts_only_at_the_end_of_an_utterance() {
    let heard = pcm_to_base64(&[4]);
    let r = round(Ok(page_says(&heard)), Ok(false), Ok(String::new()), Ok(json("{}")));
    assert_eq!(r.turns, 0);
}

#[test]
fn a_round_fails_where_the_page_does() {
    let r = round(Err("gone".to_string()), Ok(true), Ok("AA==".to_string()), Ok(json("{}")));
    assert_eq!(r.end, Err("gone".to_string()));
    assert_eq!(r.evaluated.len(), 1);
    let r = round(Ok(page_says("AQ==")), Ok(true), Ok("AA==".to_string()), Ok(json("{}")));
    assert_eq!(r.end, Err("odd byte length 1".to_string()));
    let r = round(
        Ok(page_says("")),
        Ok(true),
        Ok("AA==".to_string()),
        Ok(json(r#"{"exceptionDetails": "x"}"#)),
    );
    assert_eq!(r.end, Err("JS exception: \"x\"".to_string()));
}
