//! The body of a chat-completions request.

use crate::json::{self, value_array, value_int, value_object, value_set, value_str, Json};
use crate::meet_agent::providers::{self, ConversationTurn, TurnText};
use serde_json::Value;
use vstd::prelude::*;

verus! {

/// The sampling temperature of every request, in tenths.
pub const TEMPERATURE_TENTHS: u32 = 5;

/// One message of a chat.
pub open spec fn message_json(turn: TurnText) -> Json {
    Json::Object(
        Map::empty().insert("role"@, Json::Str(turn.role)).insert(
            "content"@,
            Json::Str(turn.content),
        ),
    )
}

/// The turns of a chat: the system prompt, what was said before, and what is
/// said now.
pub open spec fn chat_turns(
    system_prompt: Seq<char>,
    history: Seq<TurnText>,
    prompt: Seq<char>,
) -> Seq<TurnText> {
    seq![TurnText { role: "system"@, content: system_prompt }] + history + seq![
        TurnText { role: "user"@, content: prompt },
    ]
}

/// The messages of a chat.
pub open spec fn messages_json(turns: Seq<TurnText>) -> Json {
    Json::Array(Seq::new(turns.len(), |i: int| message_json(turns[i])))
}

/// The body of a chat-completions request, but for the temperature.
pub open spec fn chat_json(model: Seq<char>, turns: Seq<TurnText>, max_tokens: u32) -> Json {
    Json::Object(
        Map::empty().insert("model"@, Json::Str(model)).insert(
            "messages"@,
            messages_json(turns),
        ).insert("max_tokens"@, Json::Int(max_tokens as int)),
    )
}

fn message(role: &str, content: &str) -> (r: Value)
    ensures
        json::json_of(r) == message_json(TurnText { role: role@, content: content@ }),
{
    let mut m: Value = value_object();
    value_set(&mut m, "role", value_str(role));
    value_set(&mut m, "content", value_str(content));
    m
}

/// The body of a chat-completions request: the system prompt, the history and
/// the prompt, in that order, for `model`, with a ceiling of `max_tokens`. The
/// sampling temperature is a float and is added by the caller.
pub fn chat_body(
    model: &str,
    system_prompt: &str,
    history: &[ConversationTurn],
    prompt: &str,
    max_tokens: u32,
) -> (r: Value)
    ensures
        json::json_of(r) == chat_json(
            model@,
            chat_turns(system_prompt@, providers::turn_texts(history@), prompt@),
            max_tokens,
        ),
{
    let ghost turns = chat_turns(system_prompt@, providers::turn_texts(history@), prompt@);
    let mut messages: Vec<Value> = Vec::new();
    messages.push(message("system", system_prompt));
    let mut i: usize = 0;
    while i < history.len()
        invariant
            i <= history@.len(),
            turns == chat_turns(system_prompt@, providers::turn_texts(history@), prompt@),
            messages@.len() == i + 1,
            forall|j: int|
                0 <= j < messages@.len() ==> json::json_of(#[trigger] messages@[j])
                    == message_json(turns[j]),
        decreases history@.len() - i,
    {
        let turn: &ConversationTurn = &history[i];
        assert(turns[i + 1] == turn@);
        messages.push(message(turn.role.as_str(), turn.content.as_str()));
        i = i + 1;
    }
    messages.push(message("user", prompt));
    assert(json::contents(messages@) =~= messages_json(turns)->Array_0);
    let mut body: Value = value_object();
    value_set(&mut body, "model", value_str(model));
    value_set(&mut body, "messages", value_array(messages));
    value_set(&mut body, "max_tokens", value_int(max_tokens as i64));
    body
}

// ---------------------------------------------------------------------------
// Laws
// ---------------------------------------------------------------------------

/// A chat is laid out as the system prompt, the history in its order, and the prompt
/// last, as the user's. Each turn is one message with its role and its text.
pub proof fn law_chat_keeps_every_turn(
    model: Seq<char>,
    system_prompt: Seq<char>,
    history: Seq<TurnText>,
    prompt: Seq<char>,
    max_tokens: u32,
    i: int,
)
    ensures
        ({
            let body = chat_json(model, chat_turns(system_prompt, history, prompt), max_tokens);
            &&& body.get("model"@) == Some(Json::Str(model))
            &&& body.get("max_tokens"@) == Some(Json::Int(max_tokens as int))
            &&& forall|key: Seq<char>| #[trigger]
                body.get(key) is Some ==> key == "model"@ || key == "messages"@ || key == "max_tokens"@
            &&& body.get("messages"@) matches Some(Json::Array(messages)) && {
                &&& messages.len() == history.len() + 2
                &&& messages[0].get("role"@) == Some(Json::Str("system"@))
                &&& messages[0].get("content"@) == Some(Json::Str(system_prompt))
                &&& 0 <= i < history.len() ==> messages[i + 1].get("role"@) == Some(
                    Json::Str(history[i].role),
                )
                &&& 0 <= i < history.len() ==> messages[i + 1].get("content"@) == Some(
                    Json::Str(history[i].content),
                )
                &&& messages.last().get("role"@) == Some(Json::Str("user"@))
                &&& messages.last().get("content"@) == Some(Json::Str(prompt))
                &&& forall|key: Seq<char>|
                    0 <= i < messages.len() && #[trigger] messages[i].get(key) is Some ==> key
                        == "role"@ || key == "content"@
            }
        }),
{
    reveal_strlit("model");
    reveal_strlit("messages");
    reveal_strlit("max_tokens");
    reveal_strlit("role");
    reveal_strlit("content");
    assert("model"@.len() == 5 && "messages"@.len() == 8 && "max_tokens"@.len() == 10);
    assert("role"@.len() == 4 && "content"@.len() == 7);
}

} // verus!
