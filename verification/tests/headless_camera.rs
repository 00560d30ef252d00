use openhuman_meet::meet_headless::fake_camera::{
    fake_camera_injected, inject_fake_camera_command, FAKE_CAMERA_OVERRIDE_JS, LOG_PREFIX,
};
use serde_json::Value;

#[test]
fn js_contains_get_user_media() {
    assert!(FAKE_CAMERA_OVERRIDE_JS.contains("getUserMedia"), "JS must override getUserMedia");
}

#[test]
fn js_contains_capture_stream() {
    assert!(
        FAKE_CAMERA_OVERRIDE_JS.contains("captureStream"),
        "JS must use captureStream for fake video"
    );
}

#[test]
fn js_contains_audio_context() {
    assert!(
        FAKE_CAMERA_OVERRIDE_JS.contains("AudioContext"),
        "JS must create AudioContext for fake audio"
    );
}

#[test]
fn js_contains_oscillator() {
    assert!(
        FAKE_CAMERA_OVERRIDE_JS.contains("oscillator"),
        "JS must create oscillator for silent audio"
    );
}

#[test]
fn js_balanced_braces() {
    let open = FAKE_CAMERA_OVERRIDE_JS.chars().filter(|c| *c == '{').count();
    let close = FAKE_CAMERA_OVERRIDE_JS.chars().filter(|c| *c == '}').count();
    assert_eq!(
        open, close,
        "JS must have balanced curly braces (found {} open, {} close)",
        open, close
    );
}

#[test]
fn js_balanced_parentheses() {
    let open = FAKE_CAMERA_OVERRIDE_JS.chars().filter(|c| *c == '(').count();
    let close = FAKE_CAMERA_OVERRIDE_JS.chars().filter(|c| *c == ')').count();
    assert_eq!(
        open, close,
        "JS must have balanced parentheses (found {} open, {} close)",
        open, close
    );
}

#[test]
fn js_uses_iife_pattern() {
    assert!(FAKE_CAMERA_OVERRIDE_JS.starts_with("(function()"), "JS must use IIFE pattern");
}

#[test]
fn js_contains_canvas_dimensions() {
    assert!(
        FAKE_CAMERA_OVERRIDE_JS.contains("640") && FAKE_CAMERA_OVERRIDE_JS.contains("480"),
        "JS must set canvas to 640x480"
    );
}

#[test]
fn js_contains_dark_background_color() {
    assert!(
        FAKE_CAMERA_OVERRIDE_JS.contains("#1a1a2e"),
        "JS must use dark background color #1a1a2e"
    );
}

#[test]
fn js_contains_coral_text_color() {
    assert!(
        FAKE_CAMERA_OVERRIDE_JS.contains("#e94560"),
        "JS must use coral text color #e94560"
    );
}

#[test]
fn js_contains_openhuman_agent_text() {
    assert!(
        FAKE_CAMERA_OVERRIDE_JS.contains("OpenHuman Agent"),
        "JS must draw 'OpenHuman Agent' text on canvas"
    );
}

#[test]
fn js_saves_original_get_user_media() {
    assert!(
        FAKE_CAMERA_OVERRIDE_JS.contains("_origGetUserMedia"),
        "JS must save the original getUserMedia for fallback"
    );
}

#[test]
fn log_prefix_is_correct() {
    assert_eq!(LOG_PREFIX, "[meet-headless-camera]");
}

#[test]
fn fake_camera_js_exports_audio_for_bridge() {
    assert!(
        FAKE_CAMERA_OVERRIDE_JS.contains("window.__openhuman_fake_audio"),
        "fake camera JS must export __openhuman_fake_audio for audio bridge"
    );
    assert!(
        FAKE_CAMERA_OVERRIDE_JS.contains("audioCtx"),
        "__openhuman_fake_audio must expose audioCtx"
    );
    assert!(
        FAKE_CAMERA_OVERRIDE_JS.contains("dest"),
        "__openhuman_fake_audio must expose dest"
    );
}

#[test]
fn the_camera_is_put_in_place_before_the_page() {
    let command = inject_fake_camera_command(Some("S".to_string()));
    assert_eq!(command.method, "Page.addScriptToEvaluateOnNewDocument");
    assert_eq!(command.session_id.as_deref(), Some("S"));
    assert_eq!(command.params["source"], FAKE_CAMERA_OVERRIDE_JS);
    assert_eq!(command.params["worldName"], "");
    assert_eq!(command.params["includeCommandLineAPI"], false);
    assert_eq!(command.params["runImmediately"], true);
    assert!(inject_fake_camera_command(None).session_id.is_none());
    assert_eq!(fake_camera_injected(Ok(Value::Null)), Ok(()));
    assert_eq!(
        fake_camera_injected(Err("no page".to_string())),
        Err("[meet-headless-camera] failed to inject fake-camera override: no page".to_string())
    );
}
