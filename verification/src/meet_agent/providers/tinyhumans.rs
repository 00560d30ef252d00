//! The tinyhumans backend: the providers that are used unless others are named.

use crate::base64_text::{self, decode_base64, encode_base64};
use crate::json::{self, value_text, Json};
use crate::meet_agent::providers::chat::{self, chat_body};
use crate::meet_agent::providers::speech;
use crate::meet_agent::providers::{self, extract_chat_completion_text, ConversationTurn, TurnText};
use crate::pcm::{self, bytes_to_samples};
use crate::text::{self, concat, decimal_of, str_is_blank};
use serde_json::Value;
use vstd::prelude::*;

pub use crate::meet_agent::providers::speech::strip_for_speech;

verus! {

// ---------------------------------------------------------------------------
// Speech to text
// ---------------------------------------------------------------------------

/// Speech to text by the backend.
#[derive(Debug, Clone, Copy)]
pub struct TinyhumansStt;

/// A request to transcribe an audio file.
#[derive(Debug)]
pub struct TranscriptionRequest {
    pub audio_base64: String,
    pub mime_type: String,
    pub file_name: String,
}

impl TinyhumansStt {
    /// The request to transcribe `wav`, a WAV file.
    pub fn transcription_request(&self, wav: &[u8]) -> (r: TranscriptionRequest)
        requires
            base64_text::base64_len(wav@.len()) <= isize::MAX,
        ensures
            r.audio_base64@ == base64_text::base64_encoded(wav@),
            base64_text::base64_decoded(r.audio_base64@) == Ok::<Seq<u8>, Seq<char>>(wav@),
            r.mime_type@ == "audio/wav"@,
            r.file_name@ == "meet-agent.wav"@,
    {
        TranscriptionRequest {
            audio_base64: encode_base64(wav),
            mime_type: "audio/wav".to_string(),
            file_name: "meet-agent.wav".to_string(),
        }
    }
}

// ---------------------------------------------------------------------------
// Replies
// ---------------------------------------------------------------------------

/// Where the backend completes chats.
pub const CHAT_PATH: &'static str = "/openai/v1/chat/completions";

/// The model that the backend is asked for.
pub const CHAT_MODEL: &'static str = "agentic-v1";

/// A language model behind the backend.
#[derive(Debug, Clone, Copy)]
pub struct TinyhumansLlm;

/// A call of the backend on behalf of a session.
pub struct BackendRequest {
    pub token: String,
    pub path: String,
    pub body: Value,
}

/// What a [`BackendRequest`] holds.
pub struct BackendRequestView {
    pub token: Seq<char>,
    pub path: Seq<char>,
    pub body: Json,
}

impl View for BackendRequest {
    type V = BackendRequestView;

    open spec fn view(&self) -> BackendRequestView {
        BackendRequestView {
            token: self.token@,
            path: self.path@,
            body: json::json_of(self.body),
        }
    }
}

/// The call for a reply in a chat, but for the temperature; there is none
/// without a session token.
pub open spec fn backend_call(
    token: Option<Seq<char>>,
    turns: Seq<TurnText>,
    max_tokens: u32,
) -> Result<BackendRequestView, Seq<char>> {
    if token is Some && !text::is_blank(token->0) {
        Ok(
            BackendRequestView {
                token: token->0,
                path: CHAT_PATH@,
                body: chat::chat_json(CHAT_MODEL@, turns, max_tokens),
            },
        )
    } else {
        Err("no backend session token"@)
    }
}

/// What an answer says, fit to be spoken, or the reason why it says nothing.
pub open spec fn backend_reply(raw: Json) -> Result<Seq<char>, Seq<char>> {
    match providers::chat_content(raw) {
        Some(content) => Ok(speech::spoken(text::trimmed(content))),
        None => Err("unexpected chat completions response: "@ + json::json_text(raw)),
    }
}

impl TinyhumansLlm {
    /// The call for a reply to `prompt`, in the session whose token is `token`.
    /// The sampling temperature is left for the caller to add to the body.
    pub fn reply_request(
        &self,
        token: Option<String>,
        prompt: &str,
        history: &[ConversationTurn],
        system_prompt: &str,
        max_tokens: u32,
    ) -> (r: Result<BackendRequest, String>)
        ensures
            match r {
                Ok(call) => backend_call(
                    text::opt_text(token),
                    chat::chat_turns(system_prompt@, providers::turn_texts(history@), prompt@),
                    max_tokens,
                ) == Ok::<BackendRequestView, Seq<char>>(call@),
                Err(e) => backend_call(
                    text::opt_text(token),
                    chat::chat_turns(system_prompt@, providers::turn_texts(history@), prompt@),
                    max_tokens,
                ) == Err::<BackendRequestView, Seq<char>>(e@),
            },
    {
        match token {
            Some(token) => if str_is_blank(token.as_str()) {
                Err("no backend session token".to_string())
            } else {
                Ok(
                    BackendRequest {
                        token,
                        path: CHAT_PATH.to_string(),
                        body: chat_body(CHAT_MODEL, system_prompt, history, prompt, max_tokens),
                    },
                )
            },
            None => Err("no backend session token".to_string()),
        }
    }

    /// What an answer of the backend says, fit to be spoken.
    pub fn reply_text(&self, raw: &Value) -> (r: Result<String, String>)
        ensures
            text::text_result(r) == backend_reply(json::json_of(*raw)),
    {
        match extract_chat_completion_text(raw) {
            Some(content) => Ok(strip_for_speech(content.as_str())),
            None => {
                let shown: String = value_text(raw);
                Err(concat("unexpected chat completions response: ", shown.as_str()))
            },
        }
    }
}

// ---------------------------------------------------------------------------
// Text to speech
// ---------------------------------------------------------------------------

/// The speech model that the backend is asked for.
pub const TTS_MODEL_ID: &'static str = "eleven_turbo_v2_5";

/// Text to speech by the backend.
#[derive(Debug, Clone, Copy)]
pub struct TinyhumansTts;

/// A request to say a text. How the voice is to sound is left for the caller to
/// add.
#[derive(Debug)]
pub struct SpeechRequest {
    pub text: String,
    pub output_format: String,
    pub model_id: String,
}

/// The samples in an answer, or the reason why it holds none.
pub open spec fn backend_speech(encoded: Seq<char>) -> Result<Seq<i16>, Seq<char>> {
    match base64_text::base64_decoded(encoded) {
        Err(e) => Err("decode tts base64: "@ + e),
        Ok(bytes) => if bytes.len() % 2 != 0 {
            Err("odd byte length from tts: "@ + text::decimal(bytes.len()))
        } else {
            Ok(pcm::pcm_samples(bytes))
        },
    }
}

impl TinyhumansTts {
    /// The request to say `said`, as bare samples at the given rate.
    pub fn speech_request(&self, said: &str, sample_rate: u32) -> (r: SpeechRequest)
        ensures
            r.text@ == said@,
            r.output_format@ == "pcm_"@ + text::decimal(sample_rate as nat),
            r.model_id@ == TTS_MODEL_ID@,
            r.model_id@ == "eleven_turbo_v2_5"@,
    {
        let rate: String = decimal_of(sample_rate as u64);
        SpeechRequest {
            text: said.to_string(),
            output_format: concat("pcm_", rate.as_str()),
            model_id: TTS_MODEL_ID.to_string(),
        }
    }

    /// The samples in the audio of an answer.
    pub fn samples(&self, audio_base64: &str) -> (r: Result<Vec<i16>, String>)
        ensures
            pcm::pcm_result(r) == backend_speech(audio_base64@),
    {
        let bytes: Vec<u8> = match decode_base64(audio_base64) {
            Ok(bytes) => bytes,
            Err(e) => return Err(concat("decode tts base64: ", e.as_str())),
        };
        if bytes.len() % 2 != 0 {
            let n: String = decimal_of(bytes.len() as u64);
            return Err(concat("odd byte length from tts: ", n.as_str()));
        }
        Ok(bytes_to_samples(bytes.as_slice()))
    }
}

// ---------------------------------------------------------------------------
// Laws
// ---------------------------------------------------------------------------

/// The backend is asked, as the session whose token is given, for a reply of its own
/// model to the whole chat. Without a token, or with a blank one, it is not asked.
pub proof fn law_backend_needs_a_token(
    token: Option<Seq<char>>,
    turns: Seq<TurnText>,
    max_tokens: u32,
)
    ensures
        ({
            let given = token is Some && !(forall|i: int|
                0 <= i < (token->0).len() ==> text::is_white(#[trigger] (token->0)[i]));
            &&& given ==> backend_call(token, turns, max_tokens) == Ok::<
                BackendRequestView,
                Seq<char>,
            >(
                BackendRequestView {
                    token: token->0,
                    path: "/openai/v1/chat/completions"@,
                    body: chat::chat_json("agentic-v1"@, turns, max_tokens),
                },
            )
            &&& !given ==> backend_call(token, turns, max_tokens) == Err::<
                BackendRequestView,
                Seq<char>,
            >("no backend session token"@)
        }),
{
    if token is Some {
        text::lemma_blank(token->0);
    }
}

/// The reply is what is read aloud of the content of the first choice. Any other
/// answer is an error that shows it.
pub proof fn law_backend_reply_is_spoken(raw: Json, content: Seq<char>)
    ensures
        (raw.get("choices"@) matches Some(Json::Array(choices)) && choices.len() > 0
            && choices[0].get("message"@) is Some && (choices[0].get("message"@)->0).get("content"@)
            == Some(Json::Str(content))) ==> backend_reply(raw) == Ok::<Seq<char>, Seq<char>>(
            speech::spoken(text::trimmed(content)),
        ),
        !(raw.get("choices"@) matches Some(Json::Array(choices)) && choices.len() > 0
            && choices[0].get("message"@) is Some && (choices[0].get("message"@)->0).get("content"@)
            is Some && (choices[0].get("message"@)->0).get("content"@)->0 is Str) ==> backend_reply(
            raw,
        ) == Err::<Seq<char>, Seq<char>>(
            "unexpected chat completions response: "@ + json::json_text(raw),
        ),
{
}

/// The samples are all those of the audio; half a sample at its end, and audio that
/// is no base64, are errors.
pub proof fn law_backend_audio_is_read(encoded: Seq<char>, samples: Seq<i16>, bytes: Seq<u8>)
    ensures
        base64_text::base64_decoded(encoded) == Ok::<Seq<u8>, Seq<char>>(pcm::pcm_bytes(samples))
            ==> backend_speech(encoded) == Ok::<Seq<i16>, Seq<char>>(samples),
        base64_text::base64_decoded(encoded) == Ok::<Seq<u8>, Seq<char>>(bytes) && bytes.len() % 2
            == 1 ==> backend_speech(encoded) == Err::<Seq<i16>, Seq<char>>(
            "odd byte length from tts: "@ + text::decimal(bytes.len()),
        ),
        base64_text::base64_decoded(encoded) matches Err(e) ==> backend_speech(encoded) == Err::<
            Seq<i16>,
            Seq<char>,
        >("decode tts base64: "@ + e),
{
    pcm::law_samples_survive_bytes(samples);
}

/// A call of the backend is modelled by what it holds.
pub proof fn law_model_is_what_is_held(request: BackendRequest)
    ensures
        request@.token == request.token@,
        request@.path == request.path@,
        request@.body == json::json_of(request.body),
{
}

} // verus!
