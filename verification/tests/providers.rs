use openhuman_meet::config::{MeetAgentConfig, ProviderConfig};
use openhuman_meet::meet_agent::providers::factory::{
    create_default_providers, create_noop_providers, create_providers_by_name,
    create_providers_from_config, load_providers, LlmProvider, ProviderEnv, SttProvider,
    TtsProvider,
};
use openhuman_meet::meet_agent::providers::gemini_llm::GeminiLlm;
use openhuman_meet::meet_agent::providers::google_stt::GoogleStt;
use openhuman_meet::meet_agent::providers::google_tts::GoogleTts;
use openhuman_meet::meet_agent::providers::http::HttpReply;
use openhuman_meet::meet_agent::providers::noop::{NoopLlm, NoopStt, NoopTts};
use openhuman_meet::meet_agent::providers::tinyhumans::{
    TinyhumansLlm, TinyhumansStt, TinyhumansTts,
};
use openhuman_meet::meet_agent::providers::{extract_chat_completion_text, ConversationTurn};
use serde_json::Value;

use base64::engine::general_purpose::STANDARD;
use base64::Engine;

fn json(text: &str) -> Value {
    serde_json::from_str(text).unwrap()
}

fn no_env() -> ProviderEnv {
    ProviderEnv { google_api_key: None, gemini_api_key: None }
}

fn named(stt: &str, llm: &str, tts: &str) -> MeetAgentConfig {
    let mut config = MeetAgentConfig::default();
    config.stt_provider = stt.to_string();
    config.llm_provider = llm.to_string();
    config.tts_provider = tts.to_string();
    config
}

fn with_key(key: &str) -> ProviderConfig {
    ProviderConfig { api_key: Some(key.to_string()), ..Default::default() }
}

fn all_tinyhumans(p: &(SttProvider, LlmProvider, TtsProvider)) -> bool {
    matches!(
        p,
        (SttProvider::Tinyhumans(_), LlmProvider::Tinyhumans(_), TtsProvider::Tinyhumans(_))
    )
}

fn all_noop(p: &(SttProvider, LlmProvider, TtsProvider)) -> bool {
    matches!(p, (SttProvider::Noop(_), LlmProvider::Noop(_), TtsProvider::Noop(_)))
}

// ── Factory ─────────────────────────────────────────────────────────

#[test]
fn create_default_providers_returns_tinyhumans() {
    assert!(all_tinyhumans(&create_default_providers()));
}

#[test]
fn create_noop_providers_returns_noop() {
    assert!(all_noop(&create_noop_providers()));
}

#[test]
fn create_from_config_noop() {
    let config = named("noop", "noop", "noop");
    assert!(all_noop(&create_providers_from_config(&config, &no_env())));
}

#[test]
fn create_from_config_google_gemini() {
    let mut config = named("google", "gemini", "google");
    config.providers.insert("google".to_string(), with_key("google-key"));
    config.providers.insert("gemini".to_string(), with_key("gemini-key"));
    let (stt, llm, tts) = create_providers_from_config(&config, &no_env());
    assert!(matches!(stt, SttProvider::Google(_)));
    assert!(matches!(llm, LlmProvider::Gemini(_)));
    assert!(matches!(tts, TtsProvider::Google(_)));
}

#[test]
fn create_from_config_unknown_falls_back_to_tinyhumans() {
    let config = named("unknown_provider", "another_unknown", "still_unknown");
    assert!(all_tinyhumans(&create_providers_from_config(&config, &no_env())));
}

#[test]
fn create_from_config_google_without_key_falls_back() {
    let config = named("google", "gemini", "google");
    assert!(all_tinyhumans(&create_providers_from_config(&config, &no_env())));
}

#[test]
fn create_by_name_noop_and_default() {
    assert!(all_noop(&create_providers_by_name(Some("noop"), Some("noop"), Some("noop"))));
    assert!(all_tinyhumans(&create_providers_by_name(None, None, None)));
    assert!(all_tinyhumans(&create_providers_by_name(
        Some("garbage"),
        Some("garbage"),
        Some("garbage")
    )));
}

#[test]
fn names_are_matched_with_case() {
    let config = named("Noop", "NOOP", "noop ");
    assert!(all_tinyhumans(&create_providers_from_config(&config, &no_env())));
    assert!(all_tinyhumans(&create_providers_by_name(Some("google"), Some("gemini"), None)));
}

#[test]
fn a_key_from_the_environment_will_do() {
    let config = named("google", "gemini", "google");
    let env = ProviderEnv {
        google_api_key: Some("g".to_string()),
        gemini_api_key: Some("m".to_string()),
    };
    let (stt, llm, tts) = create_providers_from_config(&config, &env);
    assert!(matches!(stt, SttProvider::Google(_)));
    assert!(matches!(llm, LlmProvider::Gemini(_)));
    assert!(matches!(tts, TtsProvider::Google(_)));
}

#[test]
fn each_provider_is_chosen_on_its_own() {
    let mut config = named("noop", "gemini", "tinyhumans");
    config.providers.insert("gemini".to_string(), with_key("k"));
    let (stt, llm, tts) = create_providers_from_config(&config, &no_env());
    assert!(matches!(stt, SttProvider::Noop(_)));
    assert!(matches!(llm, LlmProvider::Gemini(_)));
    assert!(matches!(tts, TtsProvider::Tinyhumans(_)));
    config.tts_provider = "google".to_string();
    let (stt, llm, _) = create_providers_from_config(&config, &no_env());
    assert!(matches!(stt, SttProvider::Noop(_)));
    assert!(matches!(llm, LlmProvider::Gemini(_)));
}

#[test]
fn settings_that_cannot_be_loaded_give_the_default() {
    assert!(all_tinyhumans(&load_providers(&Err("no file".to_string()), &no_env())));
    assert!(all_noop(&load_providers(&Ok(named("noop", "noop", "noop")), &no_env())));
}

// ── Noop ────────────────────────────────────────────────────────────

#[test]
fn noop_stt_returns_empty() {
    let stt = NoopStt;
    let result = stt.transcribe(&[0i16; 1600], 16000).unwrap();
    assert!(result.is_empty());
}

#[test]
fn noop_llm_returns_empty() {
    let llm = NoopLlm;
    let result = llm.reply("hello", &[], "system", 100).unwrap();
    assert!(result.is_empty());
}

#[test]
fn noop_tts_returns_empty() {
    let tts = NoopTts;
    let result = tts.synthesize("hello", 16000).unwrap();
    assert!(result.is_empty());
}

// ── Gemini ──────────────────────────────────────────────────────────

fn gemini() -> GeminiLlm {
    let mut config = MeetAgentConfig::default();
    config.providers.insert(
        "gemini".to_string(),
        ProviderConfig {
            api_key: Some("test-key".to_string()),
            base_url: Some("http://localhost:1".to_string()),
            ..Default::default()
        },
    );
    GeminiLlm::from_config(&config, None).ok().unwrap()
}

fn chat_response(content: &str) -> Value {
    let mut v = json(
        r#"{"id": "test", "object": "chat.completion", "choices": [
            {"index": 0, "message": {"role": "assistant"}, "finish_reason": "stop"}]}"#,
    );
    v["choices"][0]["message"]["content"] = Value::from(content);
    v
}

#[test]
fn gemini_llm_from_config_rejects_missing_api_key() {
    let config = MeetAgentConfig::default();
    let result = GeminiLlm::from_config(&config, None);
    assert!(result.is_err(), "should fail without API key");
    assert_eq!(
        result.err().unwrap(),
        "gemini LLM: no API key in config or $GEMINI_API_KEY env var"
    );
}

#[test]
fn reply_returns_text_from_api() {
    let reply = GeminiLlm::reply_text(&HttpReply::Json(chat_response("Hi there"))).expect("reply ok");
    assert!(reply.contains("Hi there"), "got: {reply}");
}

#[test]
fn reply_strips_markdown_for_speech() {
    let reply = GeminiLlm::reply_text(&HttpReply::Json(chat_response(
        "**bold** and `code` and more\n```\nfenced\n```\n- bullet",
    )))
    .expect("reply ok");
    assert!(!reply.contains('*'), "asterisks should be stripped: {reply}");
    assert!(!reply.contains('`'), "backticks should be stripped: {reply}");
    assert!(!reply.contains("fenced"), "fenced block should be removed: {reply}");
    assert_eq!(reply, "bold and code and more bullet");
}

#[test]
fn reply_handles_empty_choices() {
    let result = GeminiLlm::reply_text(&HttpReply::Json(json(r#"{ "choices": [] }"#)));
    assert!(result.is_err(), "empty choices should error: {result:?}");
    assert_eq!(result.unwrap_err(), r#"gemini LLM unexpected response: {"choices":[]}"#);
}

#[test]
fn reply_handles_api_error() {
    let result = GeminiLlm::reply_text(&HttpReply::Status {
        status: "500 Internal Server Error".to_string(),
        text: "boom".to_string(),
    });
    assert!(result.is_err(), "5xx should error");
    let err = result.unwrap_err();
    assert!(err.contains("500"));
    assert_eq!(err, "gemini LLM HTTP 500 Internal Server Error: boom");
}

#[test]
fn reply_handles_transport_and_parse_errors() {
    assert_eq!(
        GeminiLlm::reply_text(&HttpReply::Failed("refused".to_string())).unwrap_err(),
        "gemini LLM request failed: refused"
    );
    assert_eq!(
        GeminiLlm::reply_text(&HttpReply::NotJson("eof".to_string())).unwrap_err(),
        "gemini LLM JSON parse: eof"
    );
}

#[test]
fn reply_includes_history() {
    let history = vec![
        ConversationTurn { role: "user".to_string(), content: "previous question".to_string() },
        ConversationTurn { role: "assistant".to_string(), content: "previous answer".to_string() },
    ];
    let request = gemini().reply_request("now what", &history, "sys-prompt", 100);
    let messages = request.body["messages"].as_array().expect("messages array");
    // system + 2 history + user prompt = 4
    assert_eq!(messages.len(), 4, "messages: {messages:?}");
    assert_eq!(messages[0]["role"], "system");
    assert_eq!(messages[0]["content"], "sys-prompt");
    assert_eq!(messages[1]["role"], "user");
    assert_eq!(messages[1]["content"], "previous question");
    assert_eq!(messages[2]["role"], "assistant");
    assert_eq!(messages[2]["content"], "previous answer");
    assert_eq!(messages[3]["role"], "user");
    assert_eq!(messages[3]["content"], "now what");
    assert_eq!(request.body["model"], "gemini-2.5-flash");
    assert_eq!(request.body["max_tokens"], 100);
    assert_eq!(request.url, "http://localhost:1/chat/completions");
}

#[test]
fn reply_sends_bearer_auth() {
    let request = gemini().reply_request("hi", &[], "sys", 100);
    assert_eq!(
        request.headers,
        vec![("Authorization".to_string(), "Bearer test-key".to_string())]
    );
}

#[test]
fn gemini_settings_override_the_defaults() {
    let mut config = MeetAgentConfig::default();
    config.providers.insert(
        "gemini".to_string(),
        ProviderConfig { model: Some("gemini-x".to_string()), ..Default::default() },
    );
    let llm = GeminiLlm::from_config(&config, Some("env-key".to_string())).ok().unwrap();
    let request = llm.reply_request("hi", &[], "sys", 1);
    assert_eq!(request.body["model"], "gemini-x");
    assert_eq!(request.headers[0].1, "Bearer env-key");
    assert_eq!(
        request.url,
        "https://generativelanguage.googleapis.com/v1beta/openai/chat/completions"
    );
}

// ── Google speech to text ───────────────────────────────────────────

#[test]
fn google_stt_from_config_rejects_missing_api_key() {
    let config = MeetAgentConfig::default();
    let result = GoogleStt::from_config(&config, None);
    assert!(result.is_err(), "should fail without API key");
    assert_eq!(
        result.err().unwrap(),
        "google STT: no API key in config or $GOOGLE_API_KEY env var"
    );
}

#[test]
fn a_recognition_request_carries_the_audio() {
    let mut config = MeetAgentConfig::default();
    config.providers.insert("google".to_string(), with_key("k"));
    let stt = GoogleStt::from_config(&config, Some("ignored".to_string())).ok().unwrap();
    let request = stt.recognize_request(b"RIFFdata", 16_000);
    assert_eq!(request.url, "https://speech.googleapis.com/v1/speech:recognize?key=k");
    assert!(request.headers.is_empty());
    assert_eq!(
        request.body,
        json(
            r#"{"config": {"encoding": "LINEAR16", "sampleRateHertz": 16000,
                "languageCode": "ja-JP", "model": "chirp_2"},
                "audio": {"content": "UklGRmRhdGE="}}"#
        )
    );
}

#[test]
fn a_transcript_is_the_first_alternative_of_the_first_result() {
    let found = HttpReply::Json(json(
        r#"{"results": [{"alternatives": [{"transcript": "hello"}, {"transcript": "hallo"}]},
            {"alternatives": [{"transcript": "later"}]}]}"#,
    ));
    assert_eq!(GoogleStt::transcript(&found).unwrap(), "hello");
    assert_eq!(GoogleStt::transcript(&HttpReply::Json(json("{}"))).unwrap(), "");
    assert_eq!(GoogleStt::transcript(&HttpReply::Json(json(r#"{"results": []}"#))).unwrap(), "");
    assert_eq!(
        GoogleStt::transcript(&HttpReply::Failed("x".to_string())).unwrap_err(),
        "google STT request failed: x"
    );
    assert_eq!(
        GoogleStt::transcript(&HttpReply::Status {
            status: "403 Forbidden".to_string(),
            text: "no".to_string()
        })
        .unwrap_err(),
        "google STT HTTP 403 Forbidden: no"
    );
    assert_eq!(
        GoogleStt::transcript(&HttpReply::NotJson("y".to_string())).unwrap_err(),
        "google STT JSON parse: y"
    );
}

// ── Google text to speech ───────────────────────────────────────────

fn audio_reply(bytes: &[u8]) -> HttpReply {
    let mut v = json("{}");
    v["audioContent"] = Value::from(STANDARD.encode(bytes));
    HttpReply::Json(v)
}

#[test]
fn google_tts_from_config_rejects_missing_api_key() {
    let config = MeetAgentConfig::default();
    let result = GoogleTts::from_config(&config, None);
    assert!(result.is_err(), "should fail without API key");
    assert_eq!(
        result.err().unwrap(),
        "google TTS: no API key in config or $GOOGLE_API_KEY env var"
    );
}

#[test]
fn synthesize_returns_pcm() {
    let pcm = GoogleTts::samples(&audio_reply(&vec![0u8; 3200])).expect("synth ok");
    // 3200 bytes → 1600 i16 samples.
    assert_eq!(pcm.len(), 1600);
    assert!(pcm.iter().all(|&s| s == 0));
}

#[test]
fn synthesize_handles_api_error() {
    let result = GoogleTts::samples(&HttpReply::Status {
        status: "500 Internal Server Error".to_string(),
        text: "boom".to_string(),
    });
    assert!(result.is_err());
    assert!(result.unwrap_err().contains("500"));
}

#[test]
fn synthesize_handles_invalid_base64() {
    let result =
        GoogleTts::samples(&HttpReply::Json(json(r#"{"audioContent": "not-valid-base64!!!"}"#)));
    assert!(result.is_err(), "invalid base64 should error");
    let err = result.unwrap_err();
    assert!(err.contains("base64"), "error should mention base64: {err}");
}

#[test]
fn synthesize_handles_missing_audio_content() {
    let result = GoogleTts::samples(&HttpReply::Json(json("{}")));
    assert!(result.is_err());
    assert_eq!(result.unwrap_err(), "google TTS missing audioContent: {}");
}

#[test]
fn a_wav_header_is_taken_off() {
    let mut wav = b"RIFF".to_vec();
    wav.extend(vec![9u8; 40]);
    wav.extend([1, 0, 255, 255]);
    assert_eq!(GoogleTts::samples(&audio_reply(&wav)).unwrap(), vec![1, -1]);
    // Not longer than a header: taken as it is.
    assert_eq!(GoogleTts::samples(&audio_reply(&wav[..44])).unwrap().len(), 22);
    // Not a WAV file: taken as it is.
    assert_eq!(GoogleTts::samples(&audio_reply(&wav[4..])).unwrap().len(), 22);
}

#[test]
fn an_odd_number_of_bytes_is_refused() {
    assert_eq!(
        GoogleTts::samples(&audio_reply(&[1, 2, 3])).unwrap_err(),
        "google TTS odd byte length: 3"
    );
}

#[test]
fn the_key_stays_out_of_urls_and_errors() {
    let tts = GoogleTts::from_config(&MeetAgentConfig::default(), Some("s3cret".to_string()))
        .ok()
        .unwrap();
    let request = tts.synthesize_request("hello", 16_000);
    assert_eq!(request.url, "https://texttospeech.googleapis.com/v1/text:synthesize");
    assert_eq!(
        request.headers,
        vec![("X-goog-api-key".to_string(), "s3cret".to_string())]
    );
    assert_eq!(
        request.body,
        json(
            r#"{"input": {"text": "hello"},
                "voice": {"languageCode": "ja-JP", "name": "ja-JP-Standard-A"},
                "audioConfig": {"audioEncoding": "LINEAR16", "sampleRateHertz": 16000}}"#
        )
    );
    assert_eq!(
        GoogleTts::samples(&HttpReply::Failed("https://x?key=s3cret".to_string())).unwrap_err(),
        "google TTS HTTP request failed"
    );
    assert_eq!(
        GoogleTts::samples(&HttpReply::NotJson("bad".to_string())).unwrap_err(),
        "google TTS JSON parse: bad"
    );
}

// ── Tinyhumans ──────────────────────────────────────────────────────

#[test]
fn extract_chat_completion_text_parses_standard_response() {
    let raw = json(
        r#"{"choices": [{"message": {"role": "assistant", "content": "  hello there  "}}]}"#,
    );
    assert_eq!(extract_chat_completion_text(&raw), Some("hello there".to_string()));
}

#[test]
fn extract_chat_completion_text_returns_none_on_empty() {
    assert_eq!(extract_chat_completion_text(&json(r#"{ "choices": [] }"#)), None);
}

#[test]
fn extract_chat_completion_text_returns_none_on_missing_content() {
    let raw = json(r#"{ "choices": [{ "message": { "role": "assistant" } }] }"#);
    assert_eq!(extract_chat_completion_text(&raw), None);
}

#[test]
fn extract_chat_completion_text_returns_none_on_missing_choices() {
    assert_eq!(extract_chat_completion_text(&json("{}")), None);
}

#[test]
fn extract_chat_completion_text_pulls_first_choice() {
    let raw = json(r#"{"choices": [{ "message": { "content": "  hello world  " } }]}"#);
    assert_eq!(extract_chat_completion_text(&raw), Some("hello world".to_string()));
}

#[test]
fn extract_chat_completion_text_returns_none_on_malformed() {
    assert_eq!(extract_chat_completion_text(&json("{}")), None);
    assert_eq!(extract_chat_completion_text(&json(r#"{ "choices": [] }"#)), None);
}

#[test]
fn tinyhumans_llm_returns_error_without_token() {
    let llm = TinyhumansLlm;
    for token in [None, Some("".to_string()), Some("  \t".to_string())] {
        let err = match llm.reply_request(token, "hi", &[], "sys", 100) {
            Ok(_) => panic!("llm without token should err"),
            Err(e) => e,
        };
        assert!(
            err.contains("session token") || err.contains("no backend"),
            "unexpected error: {err}"
        );
    }
}

#[test]
fn a_backend_call_asks_the_agentic_model() {
    let call = TinyhumansLlm
        .reply_request(Some("tok".to_string()), "hi", &[], "sys", 220)
        .ok()
        .unwrap();
    assert_eq!(call.token, "tok");
    assert_eq!(call.path, "/openai/v1/chat/completions");
    assert_eq!(
        call.body,
        json(
            r#"{"model": "agentic-v1", "max_tokens": 220, "messages": [
                {"role": "system", "content": "sys"}, {"role": "user", "content": "hi"}]}"#
        )
    );
}

#[test]
fn a_backend_reply_is_fit_to_be_spoken() {
    let llm = TinyhumansLlm;
    assert_eq!(llm.reply_text(&chat_response("  **Sure**, `ok`.  ")).unwrap(), "Sure, ok.");
    assert_eq!(
        llm.reply_text(&json(r#"{"error": "x"}"#)).unwrap_err(),
        r#"unexpected chat completions response: {"error":"x"}"#
    );
}

#[test]
fn backend_audio_goes_both_ways() {
    let request = TinyhumansStt.transcription_request(&[1, 2, 3]);
    assert_eq!(request.audio_base64, "AQID");
    assert_eq!(request.mime_type, "audio/wav");
    assert_eq!(request.file_name, "meet-agent.wav");

    let speech = TinyhumansTts.speech_request("hi", 16_000);
    assert_eq!(speech.text, "hi");
    assert_eq!(speech.output_format, "pcm_16000");
    assert_eq!(speech.model_id, "eleven_turbo_v2_5");
    assert_eq!(TinyhumansTts.speech_request("hi", 8_000).output_format, "pcm_8000");
    assert_eq!(TinyhumansTts.samples("AQD//w==").unwrap(), vec![1, -1]);
    assert_eq!(TinyhumansTts.samples("AQID").unwrap_err(), "odd byte length from tts: 3");
    assert!(TinyhumansTts.samples("***").unwrap_err().starts_with("decode tts base64: "));
}
