//! Gemini, by Google's OpenAI-compatible chat-completions endpoint with a
//! bearer key.

use crate::config::{MeetAgentConfig, ProviderConfig};
use crate::json::{self, value_text, Json};
use crate::meet_agent::providers::chat::{self, chat_body};
use crate::meet_agent::providers::http::{HttpReply, HttpRequest, ReplyView, RequestView};
use crate::meet_agent::providers::speech::{self, strip_for_speech};
use crate::meet_agent::providers::{self, chat_completion_content, ConversationTurn, TurnText};
use crate::text::{self, concat};
use vstd::prelude::*;

verus! {

/// The model that is used where none is named.
pub const DEFAULT_MODEL: &'static str = "gemini-2.5-flash";

/// Where the endpoint is found unless the settings say otherwise.
pub const DEFAULT_BASE_URL: &'static str = "https://generativelanguage.googleapis.com/v1beta/openai";

/// The environment variable that holds the key where the settings hold none.
pub const ENV_API_KEY: &'static str = "GEMINI_API_KEY";

/// Gemini as the language model of a meeting.
pub struct GeminiLlm {
    api_key: String,
    model: String,
    base_url: String,
}

/// What a [`GeminiLlm`] holds.
pub struct GeminiLlmView {
    pub api_key: Seq<char>,
    pub model: Seq<char>,
    pub base_url: Seq<char>,
}

impl View for GeminiLlm {
    type V = GeminiLlmView;

    closed spec fn view(&self) -> GeminiLlmView {
        GeminiLlmView { api_key: self.api_key@, model: self.model@, base_url: self.base_url@ }
    }
}

/// The provider that some settings and a key from the environment give, or the
/// reason why they give none.
pub open spec fn configured(
    settings: Option<ProviderConfig>,
    env_api_key: Option<Seq<char>>,
) -> Result<GeminiLlmView, Seq<char>> {
    let key = match settings {
        Some(c) => if c.api_key is Some {
            text::opt_text(c.api_key)
        } else {
            env_api_key
        },
        None => env_api_key,
    };
    let model = match settings {
        Some(c) => match c.model {
            Some(m) => m@,
            None => DEFAULT_MODEL@,
        },
        None => DEFAULT_MODEL@,
    };
    let base_url = match settings {
        Some(c) => match c.base_url {
            Some(u) => u@,
            None => DEFAULT_BASE_URL@,
        },
        None => DEFAULT_BASE_URL@,
    };
    match key {
        Some(api_key) => Ok(GeminiLlmView { api_key, model, base_url }),
        None => Err("gemini LLM: no API key in config or $GEMINI_API_KEY env var"@),
    }
}

/// The request for a reply in a chat, but for the temperature.
pub open spec fn completion(p: GeminiLlmView, turns: Seq<TurnText>, max_tokens: u32) -> RequestView {
    RequestView {
        url: p.base_url + "/chat/completions"@,
        headers: seq![("Authorization"@, "Bearer "@ + p.api_key)],
        body: chat::chat_json(p.model, turns, max_tokens),
    }
}

/// What a reply says, fit to be spoken, or the reason why it says nothing.
pub open spec fn replied(reply: ReplyView) -> Result<Seq<char>, Seq<char>> {
    match reply {
        ReplyView::Failed(e) => Err("gemini LLM request failed: "@ + e),
        ReplyView::Status { status, text } => Err("gemini LLM HTTP "@ + status + ": "@ + text),
        ReplyView::NotJson(e) => Err("gemini LLM JSON parse: "@ + e),
        ReplyView::Json(raw) => match providers::chat_content(raw) {
            Some(content) => Ok(speech::spoken(content)),
            None => Err("gemini LLM unexpected response: "@ + json::json_text(raw)),
        },
    }
}

impl GeminiLlm {
    /// The provider for the settings in `config`. The API key is read from the
    /// settings of `gemini`, or else is `env_api_key`, what the environment
    /// holds under [`ENV_API_KEY`].
    pub fn from_config(config: &MeetAgentConfig, env_api_key: Option<String>) -> (r: Result<
        Self,
        String,
    >)
        ensures
            match r {
                Ok(p) => configured(config.settings("gemini"@), text::opt_text(env_api_key)) == Ok::<
                    GeminiLlmView,
                    Seq<char>,
                >(p@),
                Err(e) => configured(config.settings("gemini"@), text::opt_text(env_api_key))
                    == Err::<GeminiLlmView, Seq<char>>(e@),
            },
            // The key of the settings goes before the environment's.
            r is Ok <==> env_api_key is Some || (config.providers@.contains_key("gemini"@)
                && config.providers@["gemini"@].api_key is Some),
            r matches Err(e) ==> e@ == "gemini LLM: no API key in config or $GEMINI_API_KEY env var"@,
            r matches Ok(p) ==> {
                let set = config.providers@.contains_key("gemini"@);
                let c = config.providers@["gemini"@];
                &&& p@.api_key == if set && c.api_key is Some {
                    c.api_key->0@
                } else {
                    env_api_key->0@
                }
                &&& p@.model == if set && c.model is Some {
                    c.model->0@
                } else {
                    "gemini-2.5-flash"@
                }
                &&& p@.base_url == if set && c.base_url is Some {
                    c.base_url->0@
                } else {
                    "https://generativelanguage.googleapis.com/v1beta/openai"@
                }
            },
    {
        let mut api_key: Option<String> = env_api_key;
        let mut model: String = DEFAULT_MODEL.to_string();
        let mut base_url: String = DEFAULT_BASE_URL.to_string();
        match config.providers.get("gemini") {
            Some(c) => {
                match &c.api_key {
                    Some(k) => {
                        api_key = Some(k.clone());
                    },
                    None => {},
                }
                match &c.model {
                    Some(m) => {
                        model = m.clone();
                    },
                    None => {},
                }
                match &c.base_url {
                    Some(u) => {
                        base_url = u.clone();
                    },
                    None => {},
                }
            },
            None => {},
        }
        match api_key {
            Some(api_key) => Ok(GeminiLlm { api_key, model, base_url }),
            None => Err("gemini LLM: no API key in config or $GEMINI_API_KEY env var".to_string()),
        }
    }

    /// The request for a reply to `prompt`. The sampling temperature is left for
    /// the caller to add to the body.
    pub fn reply_request(
        &self,
        prompt: &str,
        history: &[ConversationTurn],
        system_prompt: &str,
        max_tokens: u32,
    ) -> (r: HttpRequest)
        ensures
            r@ == completion(
                self@,
                chat::chat_turns(system_prompt@, providers::turn_texts(history@), prompt@),
                max_tokens,
            ),
    {
        let bearer: String = concat("Bearer ", self.api_key.as_str());
        let mut headers: Vec<(String, String)> = Vec::new();
        headers.push(("Authorization".to_string(), bearer));
        let r = HttpRequest {
            url: concat(self.base_url.as_str(), "/chat/completions"),
            headers,
            body: chat_body(self.model.as_str(), system_prompt, history, prompt, max_tokens),
        };
        assert(r@.headers =~= seq![("Authorization"@, "Bearer "@ + self@.api_key)]);
        r
    }

    /// What the reply to a request says, fit to be spoken.
    pub fn reply_text(reply: &HttpReply) -> (r: Result<String, String>)
        ensures
            text::text_result(r) == replied(reply@),
    {
        match reply {
            HttpReply::Failed(e) => Err(concat("gemini LLM request failed: ", e.as_str())),
            HttpReply::Status { status, text } => {
                let mut message: String = concat("gemini LLM HTTP ", status.as_str());
                message.append(": ");
                message.append(text.as_str());
                Err(message)
            },
            HttpReply::NotJson(e) => Err(concat("gemini LLM JSON parse: ", e.as_str())),
            HttpReply::Json(raw) => match chat_completion_content(raw) {
                Some(content) => Ok(strip_for_speech(content)),
                None => {
                    let shown: String = value_text(raw);
                    Err(concat("gemini LLM unexpected response: ", shown.as_str()))
                },
            },
        }
    }
}

// ---------------------------------------------------------------------------
// Laws
// ---------------------------------------------------------------------------

/// The settings are followed one by one. The API key of the settings goes before
/// that of the environment, and without either there is no provider; each of the
/// other settings has its own default, and none stands in for another.
pub proof fn law_settings_are_followed(
    settings: Option<ProviderConfig>,
    env_api_key: Option<Seq<char>>,
)
    ensures
        (settings is Some && (settings->0).api_key is Some) || env_api_key is Some ==> configured(
            settings,
            env_api_key,
        ) is Ok,
        !(settings is Some && (settings->0).api_key is Some) && env_api_key is None ==> configured(
            settings,
            env_api_key,
        ) == Err::<GeminiLlmView, Seq<char>>(
            "gemini LLM: no API key in config or $GEMINI_API_KEY env var"@,
        ),
        configured(settings, env_api_key) matches Ok(p) ==> {
            &&& settings is Some && (settings->0).api_key is Some ==> p.api_key
                == (settings->0).api_key->0@
            &&& !(settings is Some && (settings->0).api_key is Some) ==> env_api_key == Some(
                p.api_key,
            )
            &&& settings is Some && (settings->0).model is Some ==> p.model
                == (settings->0).model->0@
            &&& !(settings is Some && (settings->0).model is Some) ==> p.model
                == "gemini-2.5-flash"@
            &&& settings is Some && (settings->0).base_url is Some ==> p.base_url
                == (settings->0).base_url->0@
            &&& !(settings is Some && (settings->0).base_url is Some) ==> p.base_url
                == "https://generativelanguage.googleapis.com/v1beta/openai"@
        },
{
}

/// The chat goes to the provider's model, with the key as a bearer token.
pub proof fn law_chat_is_sent(p: GeminiLlmView, turns: Seq<TurnText>, max_tokens: u32)
    ensures
        completion(p, turns, max_tokens).url == p.base_url + "/chat/completions"@,
        completion(p, turns, max_tokens).headers == seq![
            ("Authorization"@, "Bearer "@ + p.api_key),
        ],
        completion(p, turns, max_tokens).body == chat::chat_json(p.model, turns, max_tokens),
{
}

/// The reply is what is read aloud of the content of the first choice. Anything else
/// is an error that says what came instead.
pub proof fn law_first_choice_is_spoken(
    raw: Json,
    content: Seq<char>,
    status: Seq<char>,
    said: Seq<char>,
    e: Seq<char>,
)
    ensures
        (raw.get("choices"@) matches Some(Json::Array(choices)) && choices.len() > 0
            && choices[0].get("message"@) is Some && (choices[0].get("message"@)->0).get("content"@)
            == Some(Json::Str(content))) ==> replied(ReplyView::Json(raw)) == Ok::<
            Seq<char>,
            Seq<char>,
        >(speech::spoken(content)),
        !(raw.get("choices"@) matches Some(Json::Array(choices)) && choices.len() > 0
            && choices[0].get("message"@) is Some && (choices[0].get("message"@)->0).get("content"@)
            is Some && (choices[0].get("message"@)->0).get("content"@)->0 is Str) ==> replied(
            ReplyView::Json(raw),
        ) == Err::<Seq<char>, Seq<char>>("gemini LLM unexpected response: "@ + json::json_text(raw)),
        replied(ReplyView::Failed(e)) == Err::<Seq<char>, Seq<char>>(
            "gemini LLM request failed: "@ + e,
        ),
        replied(ReplyView::Status { status, text: said }) == Err::<Seq<char>, Seq<char>>(
            "gemini LLM HTTP "@ + status + ": "@ + said,
        ),
        replied(ReplyView::NotJson(e)) == Err::<Seq<char>, Seq<char>>(
            "gemini LLM JSON parse: "@ + e,
        ),
{
}

} // verus!
