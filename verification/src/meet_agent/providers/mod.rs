//! The providers of the meeting agent's pipeline: speech to text, replies, and
//! text to speech. Each can be chosen on its own.

pub mod chat;
pub mod factory;
pub mod gemini_llm;
pub mod google_stt;
pub mod google_tts;
pub mod http;
pub mod noop;
pub mod speech;
pub mod tinyhumans;

use crate::json::{self, value_as_str, value_first, value_get, Json};
use crate::text::{self, str_trim};
use serde_json::Value;
use vstd::prelude::*;

verus! {

/// One turn of a conversation, as a language model is given it.
#[derive(Debug, Clone)]
pub struct ConversationTurn {
    pub role: String,
    pub content: String,
}

/// The texts of a conversation turn.
pub struct TurnText {
    pub role: Seq<char>,
    pub content: Seq<char>,
}

impl View for ConversationTurn {
    type V = TurnText;

    open spec fn view(&self) -> TurnText {
        TurnText { role: self.role@, content: self.content@ }
    }
}

/// The texts of a list of turns.
pub open spec fn turn_texts(turns: Seq<ConversationTurn>) -> Seq<TurnText> {
    Seq::new(turns.len(), |i: int| turns[i]@)
}

/// The string at `choices[0].message.content` of a chat-completions response.
pub open spec fn chat_content(raw: Json) -> Option<Seq<char>> {
    match raw.get("choices"@) {
        Some(choices) => match choices.first() {
            Some(first) => match first.get("message"@) {
                Some(message) => match message.get("content"@) {
                    Some(content) => content.as_str(),
                    None => None,
                },
                None => None,
            },
            None => None,
        },
        None => None,
    }
}

/// The string at `choices[0].message.content`, where the response has one.
pub fn chat_completion_content(raw: &Value) -> (r: Option<&str>)
    ensures
        match r {
            Some(s) => chat_content(json::json_of(*raw)) == Some(s@),
            None => chat_content(json::json_of(*raw)) is None,
        },
{
    let choices: &Value = match value_get(raw, "choices") {
        Some(v) => v,
        None => return None,
    };
    let first: &Value = match value_first(choices) {
        Some(v) => v,
        None => return None,
    };
    let message: &Value = match value_get(first, "message") {
        Some(v) => v,
        None => return None,
    };
    match value_get(message, "content") {
        Some(v) => value_as_str(v),
        None => None,
    }
}

/// The assistant's reply in a chat-completions response, trimmed; nothing where
/// the response does not have the expected shape.
pub fn extract_chat_completion_text(raw: &Value) -> (r: Option<String>)
    ensures
        match r {
            Some(s) => chat_content(json::json_of(*raw)) is Some && s@ == text::trimmed(
                chat_content(json::json_of(*raw))->0,
            ),
            None => chat_content(json::json_of(*raw)) is None,
        },
{
    match chat_completion_content(raw) {
        Some(s) => Some(str_trim(s)),
        None => None,
    }
}

/// The content of a response is that of the message of its first choice, where that
/// is a string, and nothing else.
pub proof fn law_first_choice_is_taken(raw: Json, content: Seq<char>)
    ensures
        chat_content(raw) == Some(content) <==> (raw.get("choices"@) matches Some(
            Json::Array(choices),
        ) && choices.len() > 0 && choices[0].get("message"@) is Some && (choices[0].get(
            "message"@,
        )->0).get("content"@) == Some(Json::Str(content))),
{
}

/// Turns are modelled by what they hold, in their order.
pub proof fn law_model_is_what_is_held(turns: Seq<ConversationTurn>, i: int)
    ensures
        turn_texts(turns).len() == turns.len(),
        0 <= i < turns.len() ==> turn_texts(turns)[i].role == turns[i].role@ && turn_texts(
            turns,
        )[i].content == turns[i].content@,
{
}

} // verus!
