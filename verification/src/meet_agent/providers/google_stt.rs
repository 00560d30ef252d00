//! Google Cloud Speech-to-Text, by its v1 REST API with an API key.

use crate::base64_text::{self, encode_base64};
use crate::config::{MeetAgentConfig, ProviderConfig};
use crate::json::{
    self, value_as_str, value_first, value_get, value_int, value_object, value_set, value_str, Json,
};
use crate::meet_agent::providers::http::{HttpReply, HttpRequest, ReplyView, RequestView};
use crate::text::{self, concat};
use serde_json::Value;
use vstd::prelude::*;

verus! {

/// The model that is used where none is named.
pub const DEFAULT_MODEL: &'static str = "chirp_2";

/// The language that is spoken.
pub const DEFAULT_LANGUAGE: &'static str = "ja-JP";

/// The environment variable that holds the key where the settings hold none.
pub const ENV_API_KEY: &'static str = "GOOGLE_API_KEY";

/// Google Cloud Speech-to-Text.
pub struct GoogleStt {
    api_key: String,
    model: String,
    language: String,
}

/// What a [`GoogleStt`] holds.
pub struct GoogleSttView {
    pub api_key: Seq<char>,
    pub model: Seq<char>,
    pub language: Seq<char>,
}

impl View for GoogleStt {
    type V = GoogleSttView;

    closed spec fn view(&self) -> GoogleSttView {
        GoogleSttView { api_key: self.api_key@, model: self.model@, language: self.language@ }
    }
}

/// The provider that some settings and a key from the environment give, or the
/// reason why they give none.
pub open spec fn configured(
    settings: Option<ProviderConfig>,
    env_api_key: Option<Seq<char>>,
) -> Result<GoogleSttView, Seq<char>> {
    let key = match settings {
        Some(c) => if c.api_key is Some {
            text::opt_text(c.api_key)
        } else {
            env_api_key
        },
        None => env_api_key,
    };
    let model = match settings {
        Some(c) => match c.stt_model {
            Some(m) => m@,
            None => DEFAULT_MODEL@,
        },
        None => DEFAULT_MODEL@,
    };
    match key {
        Some(api_key) => Ok(GoogleSttView { api_key, model, language: DEFAULT_LANGUAGE@ }),
        None => Err("google STT: no API key in config or $GOOGLE_API_KEY env var"@),
    }
}

/// The body of a request to recognize the speech in some WAV audio.
pub open spec fn recognize_json(p: GoogleSttView, wav: Seq<u8>, sample_rate: u32) -> Json {
    let config = Json::Object(
        Map::empty().insert("encoding"@, Json::Str("LINEAR16"@)).insert(
            "sampleRateHertz"@,
            Json::Int(sample_rate as int),
        ).insert("languageCode"@, Json::Str(p.language)).insert("model"@, Json::Str(p.model)),
    );
    let audio = Json::Object(
        Map::empty().insert("content"@, Json::Str(base64_text::base64_encoded(wav))),
    );
    Json::Object(Map::empty().insert("config"@, config).insert("audio"@, audio))
}

/// The string at `results[0].alternatives[0].transcript`.
pub open spec fn transcript_of(raw: Json) -> Option<Seq<char>> {
    match raw.get("results"@) {
        Some(results) => match results.first() {
            Some(result) => match result.get("alternatives"@) {
                Some(alternatives) => match alternatives.first() {
                    Some(alternative) => match alternative.get("transcript"@) {
                        Some(transcript) => transcript.as_str(),
                        None => None,
                    },
                    None => None,
                },
                None => None,
            },
            None => None,
        },
        None => None,
    }
}

/// What a reply says: the transcript, which is empty where the answer holds
/// none, or the reason why there is no answer.
pub open spec fn recognized(reply: ReplyView) -> Result<Seq<char>, Seq<char>> {
    match reply {
        ReplyView::Failed(e) => Err("google STT request failed: "@ + e),
        ReplyView::Status { status, text } => Err("google STT HTTP "@ + status + ": "@ + text),
        ReplyView::NotJson(e) => Err("google STT JSON parse: "@ + e),
        ReplyView::Json(raw) => match transcript_of(raw) {
            Some(transcript) => Ok(transcript),
            None => Ok(Seq::empty()),
        },
    }
}

fn first_transcript(raw: &Value) -> (r: Option<&str>)
    ensures
        match r {
            Some(s) => transcript_of(json::json_of(*raw)) == Some(s@),
            None => transcript_of(json::json_of(*raw)) is None,
        },
{
    let results: &Value = match value_get(raw, "results") {
        Some(v) => v,
        None => return None,
    };
    let result: &Value = match value_first(results) {
        Some(v) => v,
        None => return None,
    };
    let alternatives: &Value = match value_get(result, "alternatives") {
        Some(v) => v,
        None => return None,
    };
    let alternative: &Value = match value_first(alternatives) {
        Some(v) => v,
        None => return None,
    };
    match value_get(alternative, "transcript") {
        Some(v) => value_as_str(v),
        None => None,
    }
}

impl GoogleStt {
    /// The provider for the settings in `config`. The API key is read from the
    /// settings of `google`, or else is `env_api_key`, what the environment
    /// holds under [`ENV_API_KEY`].
    pub fn from_config(config: &MeetAgentConfig, env_api_key: Option<String>) -> (r: Result<
        Self,
        String,
    >)
        ensures
            match r {
                Ok(p) => configured(config.settings("google"@), text::opt_text(env_api_key)) == Ok::<
                    GoogleSttView,
                    Seq<char>,
                >(p@),
                Err(e) => configured(config.settings("google"@), text::opt_text(env_api_key))
                    == Err::<GoogleSttView, Seq<char>>(e@),
            },
            // The key of the settings goes before the environment's.
            r is Ok <==> env_api_key is Some || (config.providers@.contains_key("google"@)
                && config.providers@["google"@].api_key is Some),
            r matches Err(e) ==> e@ == "google STT: no API key in config or $GOOGLE_API_KEY env var"@,
            r matches Ok(p) ==> {
                let set = config.providers@.contains_key("google"@);
                let c = config.providers@["google"@];
                &&& p@.api_key == if set && c.api_key is Some {
                    c.api_key->0@
                } else {
                    env_api_key->0@
                }
                &&& p@.model == if set && c.stt_model is Some {
                    c.stt_model->0@
                } else {
                    "chirp_2"@
                }
                &&& p@.language == "ja-JP"@
            },
    {
        let mut api_key: Option<String> = env_api_key;
        let mut model: String = DEFAULT_MODEL.to_string();
        match config.providers.get("google") {
            Some(c) => {
                match &c.api_key {
                    Some(k) => {
                        api_key = Some(k.clone());
                    },
                    None => {},
                }
                match &c.stt_model {
                    Some(m) => {
                        model = m.clone();
                    },
                    None => {},
                }
            },
            None => {},
        }
        match api_key {
            Some(api_key) => Ok(
                GoogleStt { api_key, model, language: DEFAULT_LANGUAGE.to_string() },
            ),
            None => Err("google STT: no API key in config or $GOOGLE_API_KEY env var".to_string()),
        }
    }

    /// The request to recognize the speech in `wav`, a WAV file.
    pub fn recognize_request(&self, wav: &[u8], sample_rate: u32) -> (r: HttpRequest)
        requires
            base64_text::base64_len(wav@.len()) <= isize::MAX,
        ensures
            r@ == (RequestView {
                url: "https://speech.googleapis.com/v1/speech:recognize?key="@ + self@.api_key,
                headers: Seq::empty(),
                body: recognize_json(self@, wav@, sample_rate),
            }),
    {
        let mut config: Value = value_object();
        value_set(&mut config, "encoding", value_str("LINEAR16"));
        value_set(&mut config, "sampleRateHertz", value_int(sample_rate as i64));
        value_set(&mut config, "languageCode", value_str(self.language.as_str()));
        value_set(&mut config, "model", value_str(self.model.as_str()));
        let encoded: String = encode_base64(wav);
        let mut audio: Value = value_object();
        value_set(&mut audio, "content", value_str(encoded.as_str()));
        let mut body: Value = value_object();
        value_set(&mut body, "config", config);
        value_set(&mut body, "audio", audio);
        let r = HttpRequest {
            url: concat(
                "https://speech.googleapis.com/v1/speech:recognize?key=",
                self.api_key.as_str(),
            ),
            headers: Vec::new(),
            body,
        };
        assert(r@.headers =~= Seq::empty());
        r
    }

    /// What the reply to a request says.
    pub fn transcript(reply: &HttpReply) -> (r: Result<String, String>)
        ensures
            text::text_result(r) == recognized(reply@),
    {
        match reply {
            HttpReply::Failed(e) => Err(concat("google STT request failed: ", e.as_str())),
            HttpReply::Status { status, text } => {
                let mut message: String = concat("google STT HTTP ", status.as_str());
                message.append(": ");
                message.append(text.as_str());
                Err(message)
            },
            HttpReply::NotJson(e) => Err(concat("google STT JSON parse: ", e.as_str())),
            HttpReply::Json(raw) => match first_transcript(raw) {
                Some(s) => Ok(s.to_string()),
                None => Ok(String::new()),
            },
        }
    }
}

// ---------------------------------------------------------------------------
// Laws
// ---------------------------------------------------------------------------

/// The settings are followed one by one. The API key of the settings goes before
/// that of the environment, and without either there is no provider; each of the
/// other settings has its own default, and none stands in for another.
pub proof fn law_settings_are_followed(
    settings: Option<ProviderConfig>,
    env_api_key: Option<Seq<char>>,
)
    ensures
        (settings is Some && (settings->0).api_key is Some) || env_api_key is Some ==> configured(
            settings,
            env_api_key,
        ) is Ok,
        !(settings is Some && (settings->0).api_key is Some) && env_api_key is None ==> configured(
            settings,
            env_api_key,
        ) == Err::<GoogleSttView, Seq<char>>(
            "google STT: no API key in config or $GOOGLE_API_KEY env var"@,
        ),
        configured(settings, env_api_key) matches Ok(p) ==> {
            &&& settings is Some && (settings->0).api_key is Some ==> p.api_key
                == (settings->0).api_key->0@
            &&& !(settings is Some && (settings->0).api_key is Some) ==> env_api_key == Some(
                p.api_key,
            )
            &&& settings is Some && (settings->0).stt_model is Some ==> p.model
                == (settings->0).stt_model->0@
            &&& !(settings is Some && (settings->0).stt_model is Some) ==> p.model
                == "chirp_2"@
            &&& p.language == "ja-JP"@
        },
{
}

/// The sound goes out whole, in base64, as 16-bit samples at the rate that was given,
/// to be recognized by the provider's model in the provider's language.
pub proof fn law_sound_is_sent_whole(p: GoogleSttView, wav: Seq<u8>, sample_rate: u32)
    ensures
        ({
            let body = recognize_json(p, wav, sample_rate);
            &&& body.get("config"@) is Some
            &&& (body.get("config"@)->0).get("encoding"@) == Some(Json::Str("LINEAR16"@))
            &&& (body.get("config"@)->0).get("sampleRateHertz"@) == Some(
                Json::Int(sample_rate as int),
            )
            &&& (body.get("config"@)->0).get("languageCode"@) == Some(Json::Str(p.language))
            &&& (body.get("config"@)->0).get("model"@) == Some(Json::Str(p.model))
            &&& body.get("audio"@) is Some
            &&& (body.get("audio"@)->0).get("content"@) == Some(
                Json::Str(base64_text::base64_encoded(wav)),
            )
            &&& forall|key: Seq<char>| #[trigger]
                body.get(key) is Some ==> key == "config"@ || key == "audio"@
            &&& forall|key: Seq<char>| #[trigger]
                (body.get("config"@)->0).get(key) is Some ==> key == "encoding"@ || key == "sampleRateHertz"@ || key == "languageCode"@ || key == "model"@
            &&& forall|key: Seq<char>| #[trigger]
                (body.get("audio"@)->0).get(key) is Some ==> key == "content"@
        }),
{
    reveal_strlit("config");
    reveal_strlit("audio");
    reveal_strlit("encoding");
    reveal_strlit("sampleRateHertz");
    reveal_strlit("languageCode");
    reveal_strlit("model");
    assert("config"@[0] == 'c' && "audio"@[0] == 'a');
    assert("encoding"@[0] == 'e' && "sampleRateHertz"@[0] == 's');
    assert("languageCode"@[0] == 'l' && "model"@[0] == 'm');
}

/// What was recognized is the first alternative of the first result, as it is. A
/// reply without one says that nothing was heard, and is no error.
pub proof fn law_first_transcript_is_taken(raw: Json, heard: Seq<char>)
    ensures
        ({
            let found = match raw.get("results"@) {
                Some(Json::Array(results)) => results.len() > 0 && match results[0].get(
                    "alternatives"@,
                ) {
                    Some(Json::Array(alternatives)) => alternatives.len() > 0
                        && alternatives[0].get("transcript"@) == Some(Json::Str(heard)),
                    _ => false,
                },
                _ => false,
            };
            &&& found ==> recognized(ReplyView::Json(raw)) == Ok::<Seq<char>, Seq<char>>(heard)
            &&& recognized(ReplyView::Json(raw)) == Ok::<Seq<char>, Seq<char>>(heard)
                && heard.len() > 0 ==> found
            &&& recognized(ReplyView::Json(raw)) is Ok
        }),
{
    assert(heard.len() > 0 ==> heard != Seq::<char>::empty());
}

/// A reply that is no JSON is an error that says what came instead.
pub proof fn law_failure_says_why(status: Seq<char>, said: Seq<char>, e: Seq<char>)
    ensures
        recognized(ReplyView::Failed(e)) == Err::<Seq<char>, Seq<char>>(
            "google STT request failed: "@ + e,
        ),
        recognized(ReplyView::Status { status, text: said }) == Err::<Seq<char>, Seq<char>>(
            "google STT HTTP "@ + status + ": "@ + said,
        ),
        recognized(ReplyView::NotJson(e)) == Err::<Seq<char>, Seq<char>>(
            "google STT JSON parse: "@ + e,
        ),
{
}

} // verus!
