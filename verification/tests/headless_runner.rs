use openhuman_meet::meet_headless::browser::{
    boot_step, boot_time_left, chromium_args, chromium_candidates, is_stale_profile, locate_chromium,
    new_profile_name, parse_devtools_line, profile_dir_failure, profile_name, redact_ws_url,
    spawn_failure, BootRead, Platform, PROFILE_PREFIX,
};
use openhuman_meet::meet_headless::caption::CaptionCounters;
use openhuman_meet::meet_headless::rpc::{rpc_error, start_answer, stop_answer, RpcStage};
use openhuman_meet::meet_headless::runner::{
    after_stage, drop_actions, launch_command, stop_actions, stopped, HeadlessState, LaunchStage,
    LaunchStep, SessionParts, SessionSummary, StartEnd, StopAction,
};
use openhuman_meet::meet_headless::schemas::{
    all_controller_schemas, all_registered_controllers, Handler, TypeSchema,
};

// ── The browser's address ───────────────────────────────────────────

#[test]
fn parses_devtools_banner() {
    let line = "DevTools listening on ws://127.0.0.1:54321/devtools/browser/abc-def";
    assert_eq!(
        parse_devtools_line(line).as_deref(),
        Some("ws://127.0.0.1:54321/devtools/browser/abc-def")
    );
}

#[test]
fn rejects_non_banner_stderr() {
    assert_eq!(parse_devtools_line("Failed to launch GPU process"), None);
    assert_eq!(parse_devtools_line(""), None);
    // Mis-spelled banner — must not match.
    assert_eq!(parse_devtools_line("DevTools listening at ws://127.0.0.1:1/x"), None);
}

#[test]
fn rejects_non_ws_scheme_banner() {
    let line = "DevTools listening on http://127.0.0.1:1/x";
    assert_eq!(parse_devtools_line(line), None);
}

#[test]
fn redacts_devtools_uuid_from_ws_url() {
    let url = "ws://127.0.0.1:54321/devtools/browser/3f4e2b1a-aaaa-bbbb-cccc-deadbeefcafe";
    let redacted = redact_ws_url(url);
    assert_eq!(redacted, "ws://127.0.0.1:54321/devtools/browser/*****");
    assert!(!redacted.contains("deadbeef"));
}

#[test]
fn redact_handles_url_without_slash() {
    // Defensive — never echo the raw input in the fallback case.
    assert_eq!(redact_ws_url("not-a-url"), "*****");
}

#[test]
fn redact_ws_url_various_formats() {
    // Standard format
    assert_eq!(
        redact_ws_url("ws://127.0.0.1:9222/devtools/browser/abc-def-123"),
        "ws://127.0.0.1:9222/devtools/browser/*****"
    );
    // Non-standard input
    assert_eq!(redact_ws_url("not-a-url"), "*****");
    // Minimal ws URL
    assert_eq!(redact_ws_url("ws://"), "ws://*****");
}

#[test]
fn parse_devtools_various_banners() {
    // Standard banner
    assert!(parse_devtools_line(
        "DevTools listening on ws://127.0.0.1:9222/devtools/browser/uuid"
    )
    .is_some());
    // Not the banner
    assert!(parse_devtools_line("Some other log line").is_none());
    // Wrong scheme
    assert!(parse_devtools_line("DevTools listening on http://example.com").is_none());
    // Empty
    assert!(parse_devtools_line("").is_none());
}

#[test]
fn a_banner_may_hold_more_than_the_address() {
    assert_eq!(
        parse_devtools_line("DevTools listening on   wss://h/x trailing").as_deref(),
        Some("wss://h/x")
    );
    assert_eq!(parse_devtools_line("DevTools listening on "), None);
    assert_eq!(parse_devtools_line(" DevTools listening on ws://h/x"), None);
}

#[test]
fn the_wait_for_the_address_ends() {
    let line = |s: &str| boot_step(&BootRead::Line(s.to_string()));
    assert_eq!(line("DevTools listening on ws://h/x"), Some(Ok("ws://h/x".to_string())));
    assert_eq!(line("noise"), None);
    assert_eq!(
        boot_step(&BootRead::Closed),
        Some(Err("chromium stderr closed before DevTools banner".to_string()))
    );
    assert_eq!(
        boot_step(&BootRead::Failed("io".to_string())),
        Some(Err("chromium stderr read: io".to_string()))
    );
    assert_eq!(
        boot_step(&BootRead::Timeout),
        Some(Err("timeout waiting for chromium DevTools banner".to_string()))
    );
}

#[test]
fn the_browser_has_twenty_seconds() {
    assert_eq!(boot_time_left(1_000, 1_000), Some(20_000));
    assert_eq!(boot_time_left(1_000, 20_999), Some(1));
    assert_eq!(boot_time_left(1_000, 21_000), None);
    assert_eq!(boot_time_left(1_000, 400), Some(20_600));
    assert_eq!(boot_time_left(0, u64::MAX), None);
    assert_eq!(boot_time_left(u64::MAX, u64::MAX), Some(20_000));
}

// ── Starting the browser ────────────────────────────────────────────

#[test]
fn profiles_are_fresh_and_found_again() {
    let a = new_profile_name();
    let b = new_profile_name();
    assert_ne!(a, b);
    let live = vec!["something else".to_string(), a.clone()];
    assert!(!is_stale_profile(&a, &live), "a profile in use must not be swept");
    assert!(is_stale_profile(&b, &live));
    assert!(is_stale_profile(&a, &[]));
    let token = &a[PROFILE_PREFIX.len()..];
    assert_eq!(token.len(), 32);
    assert!(token.chars().all(|c| matches!(c, '0'..='9' | 'a'..='f')));
    assert_eq!(token.chars().nth(12), Some('4'));
    assert!(matches!(token.chars().nth(16), Some('8' | '9' | 'a' | 'b')));
    assert_eq!(profile_name(token), a);
    assert_eq!(profile_name("x"), "openhuman-meet-headless-x");
    assert!(!is_stale_profile("openhuman-meet", &[]));
    assert!(!is_stale_profile("my-openhuman-meet-headless-1", &[]));
}

#[test]
fn the_browser_gets_its_arguments() {
    assert_eq!(
        chromium_args("/tmp/p"),
        vec![
            "--headless=new",
            "--no-sandbox",
            "--disable-gpu",
            "--disable-dev-shm-usage",
            "--use-fake-ui-for-media-stream",
            "--use-fake-device-for-media-stream",
            "--remote-debugging-port=0",
            "--user-data-dir=/tmp/p",
            "about:blank",
        ]
    );
    assert_eq!(profile_dir_failure("/tmp/p", "full"), "create user_data_dir /tmp/p: full");
    assert_eq!(spawn_failure("/bin/c", "denied"), "spawn chromium at /bin/c: denied");
}

#[test]
fn the_environment_is_looked_at_first() {
    let env = [None, Some("/opt/chrome".to_string()), None];
    let places = chromium_candidates(&env, Platform::Linux);
    assert_eq!(
        places,
        vec![
            "/opt/chrome",
            "/usr/bin/google-chrome",
            "/usr/bin/google-chrome-stable",
            "/usr/bin/chromium",
            "/usr/bin/chromium-browser",
            "/snap/bin/chromium",
        ]
    );
    assert_eq!(chromium_candidates(&[], Platform::MacOs).len(), 3);
    assert_eq!(
        chromium_candidates(&[], Platform::Windows),
        vec![
            r"C:\Program Files\Google\Chrome\Application\chrome.exe",
            r"C:\Program Files (x86)\Google\Chrome\Application\chrome.exe",
        ]
    );
    assert!(chromium_candidates(&[], Platform::Other).is_empty());
    let exists = [false, false, true, true, false, false];
    assert_eq!(locate_chromium(&places, &exists).unwrap(), "/usr/bin/google-chrome-stable");
    assert_eq!(
        locate_chromium(&[], &[]).unwrap_err(),
        "could not locate chrome/chromium — set $CHROME to the binary path \
         (e.g. /Applications/Google Chrome.app/Contents/MacOS/Google Chrome)"
    );
}

// ── The registry ────────────────────────────────────────────────────

#[test]
fn a_request_starts_once() {
    let mut state: HeadlessState<u32> = HeadlessState::new();
    assert_eq!(state.live_count(), 0);
    assert_eq!(state.reserve("r"), Ok(()));
    assert_eq!(state.reserve("r"), Err("session already running: r".to_string()));
    assert_eq!(state.live_count(), 1);
    assert!(matches!(state.finish_start("r", Ok(7)), StartEnd::Registered));
    assert_eq!(state.reserve("r"), Err("session already running: r".to_string()));
    assert_eq!(state.take("r"), Ok(7));
    assert_eq!(state.take("r"), Err("session not found: r".to_string()));
    assert_eq!(state.live_count(), 0);
    assert_eq!(state.reserve("r"), Ok(()));
}

#[test]
fn stop_returns_not_found_for_unknown_session() {
    let mut state: HeadlessState<u32> = HeadlessState::new();
    let err = rpc_error(RpcStage::Stop, &state.take("does-not-exist").unwrap_err());
    assert!(err.contains("not found"), "expected not-found, got: {err}");
    assert_eq!(err, "[meet-headless-rpc] stop: session not found: does-not-exist");
}

#[test]
fn a_start_keeps_its_place() {
    let mut state: HeadlessState<u32> = HeadlessState::new();
    state.reserve("r").unwrap();
    assert_eq!(
        state.take("r"),
        Err("session r is still starting; retry shortly".to_string())
    );
    assert_eq!(state.live_count(), 1);
}

#[test]
fn a_failed_start_gives_its_place_up() {
    let mut state: HeadlessState<u32> = HeadlessState::new();
    state.reserve("r").unwrap();
    match state.finish_start("r", Err("no browser".to_string())) {
        StartEnd::Failed(e) => assert_eq!(e, "no browser"),
        _ => panic!("the start did not fail"),
    }
    assert_eq!(state.live_count(), 0);
}

#[test]
fn a_cancelled_start_gets_its_session_back() {
    let mut state: HeadlessState<u32> = HeadlessState::new();
    match state.finish_start("r", Ok(9)) {
        StartEnd::Cancelled { error, session } => {
            assert_eq!(error, "session r was cancelled during start");
            assert_eq!(session, 9);
        }
        _ => panic!("the start was not cancelled"),
    }
    assert_eq!(state.live_count(), 0);
}

// ── Starting and stopping ───────────────────────────────────────────

fn launch(failing: &[LaunchStage]) -> (Vec<LaunchStage>, Result<(), (String, bool)>) {
    let mut done = Vec::new();
    let mut stage = LaunchStage::LaunchBrowser;
    loop {
        let outcome = if failing.contains(&stage) {
            Err("x".to_string())
        } else {
            done.push(stage);
            Ok(())
        };
        match after_stage(stage, outcome) {
            LaunchStep::Next(next) => stage = next,
            LaunchStep::Ready => return (done, Ok(())),
            LaunchStep::Failed { error, stop_agent } => return (done, Err((error, stop_agent))),
        }
    }
}

#[test]
fn a_start_goes_through_every_stage() {
    let (done, end) = launch(&[]);
    assert_eq!(end, Ok(()));
    assert_eq!(
        done,
        vec![
            LaunchStage::LaunchBrowser,
            LaunchStage::OpenTab,
            LaunchStage::EnablePage,
            LaunchStage::EnableRuntime,
            LaunchStage::Join,
            LaunchStage::StartAgent,
            LaunchStage::OpenCaptionPage,
            LaunchStage::StartCaptions,
            LaunchStage::OpenAudioPage,
            LaunchStage::InjectAudio,
            LaunchStage::StartAudio,
        ]
    );
}

#[test]
fn two_stages_are_single_commands() {
    let page = launch_command(LaunchStage::EnablePage, "S").unwrap();
    assert_eq!(page.method, "Page.enable");
    assert!(page.params.is_null());
    assert_eq!(page.session_id.as_deref(), Some("S"));
    let runtime = launch_command(LaunchStage::EnableRuntime, "S").unwrap();
    assert_eq!(runtime.method, "Runtime.enable");
    assert!(launch_command(LaunchStage::Join, "S").is_none());
}

#[test]
fn a_session_is_stopped_once_and_summed_up() {
    let mut state: HeadlessState<u32> = HeadlessState::new();
    let mut counters = CaptionCounters::new();
    state.reserve("other").unwrap();
    state.reserve("r").unwrap();
    state.finish_start("r", Ok(7));
    counters.open("r");
    counters.count("r", 5);
    assert_eq!(state.take("r"), Ok(7));
    let summary = stopped("r", counters.take_seen_count("r"));
    assert_eq!(summary.request_id, "r");
    assert_eq!(summary.captions_seen, 5);
    assert_eq!(state.take("r"), Err("session not found: r".to_string()));
    assert_eq!(state.live_count(), 1);
    assert_eq!(
        state.take("other"),
        Err("session other is still starting; retry shortly".to_string())
    );
}

#[test]
fn some_stages_may_fail() {
    let (done, end) = launch(&[LaunchStage::EnablePage, LaunchStage::EnableRuntime, LaunchStage::Join]);
    assert_eq!(end, Ok(()));
    assert!(done.contains(&LaunchStage::StartAudio));
    let (done, end) = launch(&[LaunchStage::OpenAudioPage]);
    assert_eq!(end, Ok(()));
    assert_eq!(done.last(), Some(&LaunchStage::StartCaptions));
    let (done, end) = launch(&[LaunchStage::InjectAudio]);
    assert_eq!(end, Ok(()));
    assert_eq!(done.last(), Some(&LaunchStage::OpenAudioPage));
}

#[test]
fn the_agent_is_stopped_where_it_was_started() {
    assert_eq!(launch(&[LaunchStage::LaunchBrowser]).1, Err(("x".to_string(), false)));
    assert_eq!(launch(&[LaunchStage::OpenTab]).1, Err(("x".to_string(), false)));
    assert_eq!(
        launch(&[LaunchStage::StartAgent]).1,
        Err(("meet_agent.start_session: x".to_string(), false))
    );
    assert_eq!(
        launch(&[LaunchStage::OpenCaptionPage]).1,
        Err(("open caption page: x".to_string(), true))
    );
}

#[test]
fn a_stop_lets_everything_go_in_order() {
    let all = SessionParts { captions: true, audio: true, browser: true, profile: true };
    assert_eq!(
        stop_actions(all),
        vec![
            StopAction::StopCaptions,
            StopAction::StopAudio,
            StopAction::StopAgent,
            StopAction::KillBrowser,
            StopAction::RemoveProfile,
        ]
    );
    let none = SessionParts { captions: false, audio: false, browser: false, profile: false };
    assert_eq!(stop_actions(none), vec![StopAction::StopAgent]);
    assert_eq!(
        drop_actions(all),
        vec![StopAction::StopCaptions, StopAction::StopAudio, StopAction::RemoveProfile]
    );
    assert_eq!(drop_actions(none), vec![]);
}

// ── Callers ─────────────────────────────────────────────────────────

#[test]
fn registered_handlers_match_schemas() {
    let schema_fns: Vec<_> = all_controller_schemas().into_iter().map(|s| s.function).collect();
    let handler_fns: Vec<_> =
        all_registered_controllers().into_iter().map(|c| c.schema.function).collect();
    assert_eq!(schema_fns, handler_fns);
    assert_eq!(schema_fns, vec!["start", "stop"]);
}

#[test]
fn all_schemas_have_matching_handlers() {
    let schemas = all_controller_schemas();
    let controllers = all_registered_controllers();
    assert_eq!(
        schemas.len(),
        controllers.len(),
        "schema count ({}) != handler count ({})",
        schemas.len(),
        controllers.len()
    );

    for (i, (s, c)) in schemas.iter().zip(controllers.iter()).enumerate() {
        assert_eq!(
            s.function, c.schema.function,
            "schema[{}].function ({}) != controller[{}].schema.function ({})",
            i, s.function, i, c.schema.function
        );
        assert_eq!(
            s.namespace, c.schema.namespace,
            "schema[{}].namespace ({}) != controller[{}].schema.namespace ({})",
            i, s.namespace, i, c.schema.namespace
        );
    }
}

#[test]
fn rpc_surface_covers_start_and_stop() {
    let schemas = all_controller_schemas();
    let functions: Vec<String> = schemas.iter().map(|s| s.function.to_string()).collect();
    assert!(functions.contains(&"start".to_string()), "missing 'start' RPC");
    assert!(functions.contains(&"stop".to_string()), "missing 'stop' RPC");
    assert_eq!(functions.len(), 2, "expected exactly 2 RPC endpoints, got {}", functions.len());
}

#[test]
fn namespace_is_meet_headless() {
    for s in all_controller_schemas() {
        assert_eq!(
            s.namespace, "meet_headless",
            "expected namespace 'meet_headless', got '{}'",
            s.namespace
        );
    }
}

#[test]
fn fields_are_described() {
    let controllers = all_registered_controllers();
    assert_eq!(controllers[0].handler, Handler::Start);
    assert_eq!(controllers[1].handler, Handler::Stop);
    let start = &controllers[0].schema;
    let names: Vec<_> = start.inputs.iter().map(|f| f.name).collect();
    assert_eq!(names, vec!["request_id", "meet_url", "display_name"]);
    assert!(start.inputs.iter().all(|f| f.required && f.ty == TypeSchema::String));
    let stop = &controllers[1].schema;
    assert_eq!(stop.inputs.len(), 1);
    let out: Vec<_> = stop.outputs.iter().map(|f| (f.name, f.ty)).collect();
    assert_eq!(
        out,
        vec![
            ("ok", TypeSchema::Bool),
            ("request_id", TypeSchema::String),
            ("captions_seen", TypeSchema::U64),
        ]
    );
}

#[test]
fn answers_echo_the_request() {
    assert_eq!(
        start_answer("r", "https://meet.google.com/a").to_string(),
        r#"{"meet_url":"https://meet.google.com/a","ok":true,"request_id":"r"}"#
    );
    let summary = SessionSummary { request_id: "r".to_string(), captions_seen: u64::MAX };
    assert_eq!(
        stop_answer(&summary).to_string(),
        r#"{"captions_seen":18446744073709551615,"ok":true,"request_id":"r"}"#
    );
    assert_eq!(
        rpc_error(RpcStage::StartParams, "e"),
        "[meet-headless-rpc] invalid start params: e"
    );
    assert_eq!(rpc_error(RpcStage::Validation, "e"), "[meet-headless-rpc] e");
    assert_eq!(rpc_error(RpcStage::Start, "e"), "[meet-headless-rpc] start: e");
    assert_eq!(
        rpc_error(RpcStage::StopParams, "e"),
        "[meet-headless-rpc] invalid stop params: e"
    );
}
