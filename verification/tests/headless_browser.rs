use openhuman_meet::meet_headless::cdp::{
    connect_failure, receive, result_str, root_command, send_failure, session_command, CdpCalls,
    CdpRead,
};
use openhuman_meet::meet_headless::join_flow::{
    begin_join, replied, woken, JoinContext, JoinStep, DEVICE_CHECK_BUDGET_MS,
    JOIN_BUTTON_BUDGET_MS, NAME_INPUT_BUDGET_MS,
};
use openhuman_meet::meet_headless::tab::{
    begin_page, begin_tab, find_page_target, page_replied, page_woken, tab_replied, PageStep,
    TabStep,
};
use serde_json::Value;

fn json(text: &str) -> Value {
    serde_json::from_str(text).unwrap()
}

// ── Calls ───────────────────────────────────────────────────────────

#[test]
fn calls_are_numbered() {
    let mut calls = CdpCalls::new();
    let first = calls.begin(&root_command("Target.getTargets", Value::Null)).unwrap();
    assert_eq!(first.id, 1);
    assert_eq!(first.body, r#"{"id":1,"method":"Target.getTargets","params":null}"#);
    let second =
        calls.begin(&session_command("Page.navigate", json(r#"{"url": "u"}"#), "S")).unwrap();
    assert_eq!(second.id, 2);
    assert_eq!(
        json(&second.body),
        json(r#"{"id": 2, "method": "Page.navigate", "params": {"url": "u"}, "sessionId": "S"}"#)
    );
}

#[test]
fn only_the_reply_to_a_call_ends_it() {
    let text = |s: &str| receive(4, "M", &CdpRead::Text(s.to_string()));
    assert_eq!(text(r#"{"id": 3, "result": {}}"#), None);
    assert_eq!(text(r#"{"method": "Page.loaded", "params": {}}"#), None);
    assert_eq!(text(r#"{"id": "4", "result": 1}"#), None);
    assert_eq!(text(r#"{"id": 4.0, "result": 1}"#), None);
    assert_eq!(text(r#"{"id": 4, "result": {"a": 1}}"#), Some(Ok(json(r#"{"a": 1}"#))));
    assert_eq!(text(r#"{"id": 4}"#), Some(Ok(Value::Null)));
    assert_eq!(
        text(r#"{"id": 4, "error": {"code": -1}}"#),
        Some(Err(r#"cdp error (method=M): {"code":-1}"#.to_string()))
    );
    match text("{") {
        Some(Err(e)) => assert!(e.starts_with("decode: "), "got: {e}"),
        other => panic!("unexpected: {other:?}"),
    }
    assert_eq!(receive(4, "M", &CdpRead::Other), None);
    let end = |read: CdpRead| receive(4, "M", &read).unwrap().unwrap_err();
    assert_eq!(end(CdpRead::Timeout), "ws read timeout (method=M)");
    assert_eq!(end(CdpRead::Ended), "ws closed (method=M)");
    assert_eq!(end(CdpRead::Failed("io".to_string())), "ws recv: io");
    assert_eq!(end(CdpRead::Close), "ws closed");
    assert_eq!(connect_failure("ws://h", "refused"), "ws connect ws://h: refused");
    assert_eq!(send_failure("broken"), "ws send: broken");
}

#[test]
fn strings_are_found_by_path() {
    let v = json(r#"{"a": {"b": "x", "c": 1}}"#);
    assert_eq!(result_str(&v, &["a", "b"]).as_deref(), Some("x"));
    assert_eq!(result_str(&v, &["a", "c"]), None);
    assert_eq!(result_str(&v, &["a", "d"]), None);
    assert_eq!(result_str(&json(r#""top""#), &[]).as_deref(), Some("top"));
}

// ── Joining ─────────────────────────────────────────────────────────

fn context() -> JoinContext {
    JoinContext { session_id: "S".to_string(), display_name: "Bot".to_string() }
}

fn value(v: &str) -> Result<Value, String> {
    Ok(json(&format!(r#"{{"result": {{"value": {v}}}}}"#)))
}

fn call_of(step: &JoinStep) -> (&str, &Value) {
    match step {
        JoinStep::Call { command, .. } => (command.method.as_str(), &command.params),
        other => panic!("no call: {other:?}"),
    }
}

fn reply(step: JoinStep, with: Result<Value, String>, now_ms: u64) -> JoinStep {
    match step {
        JoinStep::Call { waiting, .. } => replied(&context(), waiting, with, now_ms),
        other => panic!("no call: {other:?}"),
    }
}

fn wake(step: JoinStep, now_ms: u64) -> JoinStep {
    match step {
        JoinStep::Sleep { ms, resting } => {
            assert_eq!(ms, 500);
            woken(&context(), resting, now_ms)
        }
        other => panic!("no rest: {other:?}"),
    }
}

fn end_of(step: JoinStep) -> Result<(), String> {
    match step {
        JoinStep::Finish(r) => r,
        other => panic!("not the end: {other:?}"),
    }
}

#[test]
fn budgets_are_sane() {
    let total = DEVICE_CHECK_BUDGET_MS + NAME_INPUT_BUDGET_MS + JOIN_BUTTON_BUDGET_MS;
    assert!(total <= 90_000, "total join budget {total:?} > 90s — likely accidental inflation");
}

#[test]
fn a_call_is_joined_in_three_phases() {
    let step = begin_join(&context(), 0);
    let (method, params) = call_of(&step);
    assert_eq!(method, "Runtime.evaluate");
    let script = params["expression"].as_str().unwrap();
    assert!(script.contains(
        r#"const labels = ["Continue without microphone and camera","Continue without microphone","Continue without camera"];"#
    ));
    assert!(script.starts_with("\n        (() => {\n"));
    assert_eq!(params["awaitPromise"], false);

    let step = reply(step, value(r#""continue without microphone""#), 100);
    let (method, params) = call_of(&step);
    assert_eq!(method, "Runtime.evaluate");
    let script = params["expression"].as_str().unwrap();
    assert!(script.contains(r#"const hint = "Your name".toLowerCase();"#));
    assert!(params.get("awaitPromise").is_none());

    let step = reply(step, value("true"), 200);
    assert_eq!(call_of(&step), ("Input.insertText", &json(r#"{"text": "Bot"}"#)));

    let step = reply(step, Ok(Value::Null), 300);
    let script = call_of(&step).1["expression"].as_str().unwrap().to_string();
    assert!(script.contains(r#"const labels = ["Ask to join","Join now"];"#));

    assert_eq!(end_of(reply(step, value(r#""ask to join""#), 400)), Ok(()));
}

#[test]
fn the_device_check_may_fail() {
    let by_error = reply(begin_join(&context(), 0), Err("gone".to_string()), 10);
    assert!(call_of(&by_error).1["expression"].as_str().unwrap().contains("hint"));
    let mut step = begin_join(&context(), 0);
    step = wake(reply(step, value("null"), 10), 7_999);
    assert!(call_of(&step).1["expression"].as_str().unwrap().contains("labels"));
    step = wake(reply(step, value("null"), 8_000), 8_500);
    assert!(call_of(&step).1["expression"].as_str().unwrap().contains("hint"));
}

#[test]
fn a_flow_without_a_name_input_fails() {
    let naming = || reply(begin_join(&context(), 0), value(r#""ok""#), 1_000);
    let step = wake(reply(naming(), value("false"), 1_500), 30_999);
    assert_eq!(call_of(&step).0, "Runtime.evaluate");
    let step = wake(reply(step, value("1"), 31_000), 31_000);
    assert_eq!(
        end_of(step),
        Err("name input phase: timeout waiting for input matching hint=Your name".to_string())
    );
    assert_eq!(
        end_of(reply(naming(), Err("gone".to_string()), 1_100)),
        Err("name input phase: gone".to_string())
    );
    let typing = reply(naming(), value("true"), 1_100);
    assert_eq!(
        end_of(reply(typing, Err("gone".to_string()), 1_200)),
        Err("name input phase: gone".to_string())
    );
}

#[test]
fn a_flow_without_a_join_button_fails() {
    let mut step = begin_join(&context(), 0);
    step = reply(step, value(r#""ok""#), 0);
    step = reply(step, value("true"), 0);
    step = reply(step, Ok(Value::Null), 5_000);
    step = wake(reply(step, value("null"), 5_100), 35_000);
    assert_eq!(
        end_of(step),
        Err("join button phase: timeout waiting for clickable element matching \
             [\"Ask to join\", \"Join now\"] (last=null)"
            .to_string())
    );
}

// ── Tabs ────────────────────────────────────────────────────────────

#[test]
fn a_tab_shows_the_camera_first() {
    let mut step = begin_tab();
    let mut methods = Vec::new();
    let end = loop {
        match step {
            TabStep::Call { command, waiting } => {
                let with = match command.method.as_str() {
                    "Target.createTarget" => {
                        assert_eq!(command.params["url"], "about:blank");
                        Ok(json(r#"{"targetId": "T"}"#))
                    }
                    "Target.attachToTarget" => {
                        assert_eq!(command.params, json(r#"{"targetId": "T", "flatten": true}"#));
                        Ok(json(r#"{"sessionId": "S"}"#))
                    }
                    "Page.navigate" => {
                        assert_eq!(command.params["url"], "https://meet.google.com/x");
                        Err("slow".to_string())
                    }
                    _ => Err("unsupported".to_string()),
                };
                methods.push(command.method);
                step = tab_replied("https://meet.google.com/x", waiting, with);
            }
            TabStep::Done(r) => break r,
        }
    };
    assert_eq!(end, Ok("S".to_string()));
    assert_eq!(
        methods,
        vec![
            "Target.createTarget",
            "Target.attachToTarget",
            "Page.enable",
            "Page.addScriptToEvaluateOnNewDocument",
            "Page.navigate",
        ]
    );
}

fn tab_reply(step: TabStep, with: Result<Value, String>) -> TabStep {
    match step {
        TabStep::Call { waiting, .. } => tab_replied("u", waiting, with),
        TabStep::Done(r) => panic!("over: {r:?}"),
    }
}

fn tab_end(step: TabStep) -> Result<String, String> {
    match step {
        TabStep::Done(r) => r,
        other => panic!("not over: {other:?}"),
    }
}

#[test]
fn a_tab_needs_a_target_and_a_session() {
    assert_eq!(
        tab_end(tab_reply(begin_tab(), Ok(json("{}")))),
        Err("Target.createTarget missing targetId: {}".to_string())
    );
    assert_eq!(tab_end(tab_reply(begin_tab(), Err("e".to_string()))), Err("e".to_string()));
    let attaching = || tab_reply(begin_tab(), Ok(json(r#"{"targetId": "T"}"#)));
    assert_eq!(
        tab_end(tab_reply(attaching(), Ok(json(r#"{"x": 1}"#)))),
        Err(r#"Target.attachToTarget missing sessionId: {"x":1}"#.to_string())
    );
    assert_eq!(tab_end(tab_reply(attaching(), Err("e".to_string()))), Err("e".to_string()));
}

#[test]
fn the_first_page_of_the_call_is_found() {
    let targets = json(
        r#"{"targetInfos": [
            {"type": "worker", "url": "https://meet.google.com/x", "targetId": "0"},
            {"type": "page", "url": "https://other/", "targetId": "1"},
            {"type": "page", "url": "https://meet.google.com/x?authuser=0", "targetId": "2"},
            {"type": "page", "url": "https://meet.google.com/x", "targetId": "3"}]}"#,
    );
    assert_eq!(find_page_target(&targets, "https://meet.google.com/x").as_deref(), Some("2"));
    assert_eq!(find_page_target(&targets, "https://meet.google.com/y"), None);
    assert_eq!(find_page_target(&json("{}"), "u"), None);
    assert_eq!(find_page_target(&json(r#"{"targetInfos": 1}"#), "u"), None);
}

#[test]
fn an_open_tab_is_waited_for() {
    let url = "https://meet.google.com/x";
    let PageStep::Call { command, waiting } = begin_page(1_000) else { panic!("no call") };
    assert_eq!(command.method, "Target.getTargets");
    assert_eq!(command.params, Value::Null);
    let PageStep::Sleep { ms, started_ms } = page_replied(url, waiting, Ok(json("{}"))) else {
        panic!("no rest")
    };
    assert_eq!((ms, started_ms), (200, 1_000));
    let PageStep::Call { waiting, .. } = page_woken(url, started_ms, 10_999) else {
        panic!("no call")
    };
    let targets =
        json(r#"{"targetInfos": [{"type": "page", "url": "https://meet.google.com/x", "targetId": "T"}]}"#);
    let PageStep::Call { command, waiting } = page_replied(url, waiting, Ok(targets)) else {
        panic!("no call")
    };
    assert_eq!(command.method, "Target.attachToTarget");
    assert_eq!(command.params["targetId"], "T");
    let PageStep::Done(end) = page_replied(url, waiting, Ok(json(r#"{"sessionId": "S"}"#))) else {
        panic!("not over")
    };
    assert_eq!(end, Ok("S".to_string()));
}

#[test]
fn an_open_tab_is_not_waited_for_forever() {
    let PageStep::Done(end) = page_woken("u", 1_000, 11_000) else { panic!("not over") };
    assert_eq!(end, Err("no page target matching u after Target.getTargets".to_string()));
    let PageStep::Call { waiting, .. } = begin_page(0) else { panic!("no call") };
    let PageStep::Done(end) = page_replied("u", waiting, Err("e".to_string())) else {
        panic!("not over")
    };
    assert_eq!(end, Err("e".to_string()));
}
