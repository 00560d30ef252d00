use openhuman_meet::meet_agent::providers::tinyhumans::strip_for_speech;

#[test]
fn strip_for_speech_removes_markdown() {
    let input = "**bold** `code` and more\n```\nfenced code\n```\n- bullet";
    let out = strip_for_speech(input);
    assert!(!out.contains('*'), "asterisks remain: {out}");
    assert!(!out.contains('`'), "backticks remain: {out}");
    assert!(!out.contains("fenced"), "fenced block not stripped: {out}");
    assert!(out.contains("bold"), "content lost: {out}");
    assert!(out.contains("bullet"), "bullet text lost: {out}");
}

#[test]
fn strip_for_speech_preserves_punctuation() {
    let out = strip_for_speech("Hello, world. How are you?");
    assert_eq!(out, "Hello, world. How are you?");
}

#[test]
fn strip_for_speech_drops_empty_lines() {
    let out = strip_for_speech("first\n\n\nsecond");
    assert_eq!(out, "first second");
}

#[test]
fn strip_for_speech_removes_markdown_punctuation_and_fences() {
    let raw = "**Got it.** Adding `that` to your follow-ups.";
    assert_eq!(strip_for_speech(raw), "Got it. Adding that to your follow-ups.");
    let fenced = "Sure:\n```\ncode\n```\nDone.";
    assert_eq!(strip_for_speech(fenced), "Sure: Done.");
    let bullets = "- one\n- two";
    assert_eq!(strip_for_speech(bullets), "one two");
}

#[test]
fn strip_for_speech_preserves_empty_when_input_empty() {
    assert_eq!(strip_for_speech(""), "");
    assert_eq!(strip_for_speech("   \n  "), "");
}

#[test]
fn speech_of_windows_lines_and_open_fences() {
    assert_eq!(strip_for_speech("one\r\ntwo\r\n"), "one two");
    assert_eq!(strip_for_speech("before\n```rust\nnever closed\nstill code"), "before");
    assert_eq!(strip_for_speech("> # quoted title"), "quoted title");
    assert_eq!(strip_for_speech("snake_case_name"), "snakecasename");
    assert_eq!(strip_for_speech("***"), "");
}

#[test]
fn joined_texts_are_both_read() {
    let (a, b) = ("# Plan\n```\ncode\n```", "- first\n- second");
    assert_eq!(strip_for_speech(a), "Plan");
    assert_eq!(strip_for_speech(b), "first second");
    assert_eq!(strip_for_speech(&format!("{a}\n{b}")), "Plan first second");
    assert_eq!(strip_for_speech(&format!("***\n{b}")), "first second");
    assert_eq!(strip_for_speech(&format!("{a}\n")), "Plan");
}

#[test]
fn open_code_is_silent() {
    let open = "Look:\n```rust";
    assert_eq!(strip_for_speech(open), "Look:");
    assert_eq!(strip_for_speech(&format!("{open}\nlet x = 1;\n\nx")), "Look:");
}

#[test]
fn speech_of_speech_is_the_same() {
    let once = strip_for_speech("## Title\n\n* **first** point\n* `second` point");
    assert_eq!(once, "Title first point second point");
    assert_eq!(strip_for_speech(&once), once);
}
