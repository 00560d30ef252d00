//! Calls over the Chrome DevTools Protocol: requests and the replies that belong
//! to them.

use crate::json::{
    self, encode_json, parse_json, value_as_i64, value_as_str, value_at, value_bool, value_clone,
    value_get, value_int, value_null, value_object, value_set, value_str, value_text, Json,
};
use crate::text::{self, concat};
use serde_json::Value;
use vstd::prelude::*;

verus! {

/// How long the reply to a call may take.
pub const CALL_TIMEOUT_SECS: u64 = 35;

// ---------------------------------------------------------------------------
// Commands
// ---------------------------------------------------------------------------

/// A command to the browser, or to one of its sessions.
#[derive(Debug)]
pub struct CdpCommand {
    pub method: String,
    pub params: Value,
    pub session_id: Option<String>,
}

/// What a [`CdpCommand`] holds.
pub struct CommandView {
    pub method: Seq<char>,
    pub params: Json,
    pub session_id: Option<Seq<char>>,
}

impl View for CdpCommand {
    type V = CommandView;

    open spec fn view(&self) -> CommandView {
        CommandView {
            method: self.method@,
            params: json::json_of(self.params),
            session_id: text::opt_text(self.session_id),
        }
    }
}

/// A command for a session.
pub open spec fn command(method: Seq<char>, params: Json, session: Seq<char>) -> CommandView {
    CommandView { method, params, session_id: Some(session) }
}

/// A command for the browser itself.
pub open spec fn browser_command(method: Seq<char>, params: Json) -> CommandView {
    CommandView { method, params, session_id: None }
}

/// An object with one field.
pub open spec fn one_field(key: Seq<char>, value: Json) -> Json {
    Json::Object(Map::empty().insert(key, value))
}

/// The parameters that evaluate a script in a page and ask for its value.
pub open spec fn evaluate_params(expression: Seq<char>, await_promise: Option<bool>) -> Json {
    let fields = Map::empty().insert("expression"@, Json::Str(expression)).insert(
        "returnByValue"@,
        Json::Bool(true),
    );
    Json::Object(
        match await_promise {
            Some(b) => fields.insert("awaitPromise"@, Json::Bool(b)),
            None => fields,
        },
    )
}

/// The command that evaluates a script in a page and asks for its value.
pub open spec fn evaluation(
    expression: Seq<char>,
    await_promise: Option<bool>,
    session: Seq<char>,
) -> CommandView {
    command("Runtime.evaluate"@, evaluate_params(expression, await_promise), session)
}

/// A command for a session.
pub fn session_command(method: &str, params: Value, session_id: &str) -> (r: CdpCommand)
    ensures
        r@ == command(method@, json::json_of(params), session_id@),
{
    CdpCommand {
        method: method.to_string(),
        params,
        session_id: Some(session_id.to_string()),
    }
}

/// A command for the browser itself.
pub fn root_command(method: &str, params: Value) -> (r: CdpCommand)
    ensures
        r@ == browser_command(method@, json::json_of(params)),
{
    CdpCommand { method: method.to_string(), params, session_id: None }
}

/// An object with one string field.
pub fn string_param(key: &str, value: &str) -> (r: Value)
    ensures
        json::json_of(r) == one_field(key@, Json::Str(value@)),
{
    let mut params: Value = value_object();
    value_set(&mut params, key, value_str(value));
    params
}

/// The command that evaluates `expression` in the page of a session.
pub fn evaluate_command(
    expression: &str,
    await_promise: Option<bool>,
    session_id: &str,
) -> (r: CdpCommand)
    ensures
        r@ == evaluation(expression@, await_promise, session_id@),
{
    let mut params: Value = value_object();
    value_set(&mut params, "expression", value_str(expression));
    value_set(&mut params, "returnByValue", value_bool(true));
    match await_promise {
        Some(b) => value_set(&mut params, "awaitPromise", value_bool(b)),
        None => {},
    }
    session_command("Runtime.evaluate", params, session_id)
}

/// The value that an evaluation gave: what stands at `result.value`, or null.
pub open spec fn evaluated(reply: Json) -> Json {
    match reply.get("result"@) {
        Some(result) => match result.get("value"@) {
            Some(value) => value,
            None => Json::Null,
        },
        None => Json::Null,
    }
}

/// The value that an evaluation gave.
pub fn evaluated_value(reply: &Value) -> (r: Value)
    ensures
        json::json_of(r) == evaluated(json::json_of(*reply)),
{
    match value_get(reply, "result") {
        Some(result) => match value_get(result, "value") {
            Some(value) => value_clone(value),
            None => value_null(),
        },
        None => value_null(),
    }
}

/// The string at the end of `path` in `value`, one field below the other, where
/// there is one.
pub open spec fn str_at(value: Json, path: Seq<Seq<char>>) -> Option<Seq<char>> {
    match json::at_path(value, path) {
        Some(v) => v.as_str(),
        None => None,
    }
}

/// The string at the end of `path` in `value`, one field below the other, where
/// there is one.
pub fn result_str(value: &Value, path: &[&str]) -> (r: Option<String>)
    ensures
        text::opt_text(r) == str_at(json::json_of(*value), json::path_names(path@)),
{
    match value_at(value, path) {
        Some(v) => match value_as_str(v) {
            Some(s) => Some(s.to_string()),
            None => None,
        },
        None => None,
    }
}

// ---------------------------------------------------------------------------
// Calls
// ---------------------------------------------------------------------------

/// The message that makes a call.
pub open spec fn call_json(id: int, command: CommandView) -> Json {
    let fields = Map::empty().insert("id"@, Json::Int(id)).insert(
        "method"@,
        Json::Str(command.method),
    ).insert("params"@, command.params);
    Json::Object(
        match command.session_id {
            Some(s) => fields.insert("sessionId"@, Json::Str(s)),
            None => fields,
        },
    )
}

/// The calls made over one connection. Each has a number of its own.
#[derive(Debug)]
pub struct CdpCalls {
    next_id: i64,
}

/// A call that was made: the number by which its reply is known, and the text to
/// send.
#[derive(Debug)]
pub struct CdpCall {
    pub id: i64,
    pub body: String,
}

impl CdpCalls {
    /// The number of the next call.
    pub closed spec fn next(self) -> int {
        self.next_id as int
    }

    /// A connection over which no call was made yet.
    pub fn new() -> (r: Self)
        ensures
            r.next() == 1,
    {
        CdpCalls { next_id: 1 }
    }

    /// The number of the next call.
    pub fn next_id(&self) -> (r: i64)
        ensures
            r == self.next(),
    {
        self.next_id
    }

    /// Makes a call.
    pub fn begin(&mut self, command: &CdpCommand) -> (r: Result<CdpCall, String>)
        requires
            old(self).next() < i64::MAX,
        ensures
            final(self).next() == old(self).next() + 1,
            r is Ok,
            r->Ok_0.id == old(self).next(),
            json::json_encoded(call_json(old(self).next(), command@)) == Ok::<Seq<char>, Seq<char>>(
                r->Ok_0.body@,
            ),
    {
        let id: i64 = self.next_id;
        self.next_id = id + 1;
        let mut message: Value = value_object();
        value_set(&mut message, "id", value_int(id));
        value_set(&mut message, "method", value_str(command.method.as_str()));
        value_set(&mut message, "params", value_clone(&command.params));
        match &command.session_id {
            Some(s) => value_set(&mut message, "sessionId", value_str(s.as_str())),
            None => {},
        }
        assert(json::json_of(message) == call_json(id as int, command@));
        match encode_json(&message) {
            Ok(body) => Ok(CdpCall { id, body }),
            Err(e) => Err(concat("encode: ", e.as_str())),
        }
    }
}

// ---------------------------------------------------------------------------
// Replies
// ---------------------------------------------------------------------------

/// What was read from the connection while a call waits for its reply.
#[derive(Debug)]
pub enum CdpRead {
    /// Nothing, for too long.
    Timeout,
    /// The end of the connection.
    Ended,
    /// An error.
    Failed(String),
    /// A text message.
    Text(String),
    /// A message of a kind that carries no replies.
    Other,
    /// The message that closes the connection.
    Close,
}

/// What a [`CdpRead`] holds.
pub enum ReadView {
    Timeout,
    Ended,
    Failed(Seq<char>),
    Text(Seq<char>),
    Other,
    Close,
}

impl View for CdpRead {
    type V = ReadView;

    open spec fn view(&self) -> ReadView {
        match *self {
            CdpRead::Timeout => ReadView::Timeout,
            CdpRead::Ended => ReadView::Ended,
            CdpRead::Failed(e) => ReadView::Failed(e@),
            CdpRead::Text(t) => ReadView::Text(t@),
            CdpRead::Other => ReadView::Other,
            CdpRead::Close => ReadView::Close,
        }
    }
}

/// What a message means to the call with the number `id`: its result, its error,
/// or nothing where the message is not the reply to that call.
pub open spec fn reply_to(id: i64, method: Seq<char>, message: Json) -> Option<
    Result<Json, Seq<char>>,
> {
    let answers = match message.get("id"@) {
        Some(v) => v.as_i64() == Some(id),
        None => false,
    };
    if !answers {
        None
    } else {
        match message.get("error"@) {
            Some(err) => Some(
                Err("cdp error (method="@ + method + "): "@ + json::json_text(err)),
            ),
            None => match message.get("result"@) {
                Some(result) => Some(Ok(result)),
                None => Some(Ok(Json::Null)),
            },
        }
    }
}

/// What a read means to the call with the number `id`: how the call ends, or
/// nothing where it waits on.
pub open spec fn received(id: i64, method: Seq<char>, read: ReadView) -> Option<
    Result<Json, Seq<char>>,
> {
    match read {
        ReadView::Timeout => Some(Err("ws read timeout (method="@ + method + ")"@)),
        ReadView::Ended => Some(Err("ws closed (method="@ + method + ")"@)),
        ReadView::Failed(e) => Some(Err("ws recv: "@ + e)),
        ReadView::Other => None,
        ReadView::Close => Some(Err("ws closed"@)),
        ReadView::Text(t) => match json::json_parsed(t) {
            Err(e) => Some(Err("decode: "@ + e)),
            Ok(message) => reply_to(id, method, message),
        },
    }
}

/// What the call `id` of `method` does with a read: ends with a result or an
/// error, or waits on. Events and replies to other calls are passed over.
pub fn receive(id: i64, method: &str, read: &CdpRead) -> (r: Option<Result<Value, String>>)
    ensures
        match r {
            Some(end) => received(id, method@, read@) == Some(json::json_result(end)),
            None => received(id, method@, read@) is None,
        },
{
    let message: Value = match read {
        CdpRead::Timeout => {
            let mut e: String = concat("ws read timeout (method=", method);
            e.append(")");
            return Some(Err(e));
        },
        CdpRead::Ended => {
            let mut e: String = concat("ws closed (method=", method);
            e.append(")");
            return Some(Err(e));
        },
        CdpRead::Failed(e) => return Some(Err(concat("ws recv: ", e.as_str()))),
        CdpRead::Other => return None,
        CdpRead::Close => return Some(Err("ws closed".to_string())),
        CdpRead::Text(t) => match parse_json(t.as_str()) {
            Ok(v) => v,
            Err(e) => return Some(Err(concat("decode: ", e.as_str()))),
        },
    };
    let answers: bool = match value_get(&message, "id") {
        Some(v) => match value_as_i64(v) {
            Some(n) => n == id,
            None => false,
        },
        None => false,
    };
    if !answers {
        return None;
    }
    match value_get(&message, "error") {
        Some(err) => {
            let mut e: String = concat("cdp error (method=", method);
            e.append("): ");
            let shown: String = value_text(err);
            e.append(shown.as_str());
            Some(Err(e))
        },
        None => match value_get(&message, "result") {
            Some(result) => Some(Ok(value_clone(result))),
            None => Some(Ok(value_null())),
        },
    }
}

/// The error where the connection to `ws_url` cannot be made.
pub fn connect_failure(ws_url: &str, err: &str) -> (r: String)
    ensures
        r@ == "ws connect "@ + ws_url@ + ": "@ + err@,
{
    let mut e: String = concat("ws connect ", ws_url);
    e.append(": ");
    e.append(err);
    e
}

/// The error where a call cannot be sent.
pub fn send_failure(err: &str) -> (r: String)
    ensures
        r@ == "ws send: "@ + err@,
{
    concat("ws send: ", err)
}

/// A message answers at most one of two calls over one connection: a reply is
/// never taken for that of another call.
pub proof fn law_reply_answers_one_call(
    id: i64,
    other: i64,
    method: Seq<char>,
    other_method: Seq<char>,
    message: Json,
)
    requires
        id != other,
    ensures
        reply_to(id, method, message) is None || reply_to(other, other_method, message) is None,
{
}

/// An evaluation runs just the script that was given, in the session that was given,
/// and has its value sent back; it waits for a promise where it is told to.
pub proof fn law_evaluation_runs_the_script(
    expression: Seq<char>,
    await_promise: Option<bool>,
    session: Seq<char>,
)
    ensures
        ({
            let c = evaluation(expression, await_promise, session);
            &&& c.method == "Runtime.evaluate"@
            &&& c.session_id == Some(session)
            &&& c.params.get("expression"@) == Some(Json::Str(expression))
            &&& c.params.get("returnByValue"@) == Some(Json::Bool(true))
            &&& c.params.get("awaitPromise"@) == match await_promise {
                Some(b) => Some(Json::Bool(b)),
                None => None,
            }
            &&& forall|key: Seq<char>| #[trigger]
                c.params.get(key) is Some ==> key == "expression"@ || key == "returnByValue"@ || key == "awaitPromise"@
        }),
{
    reveal_strlit("expression");
    reveal_strlit("returnByValue");
    reveal_strlit("awaitPromise");
    assert("expression"@[0] == 'e' && "returnByValue"@[0] == 'r' && "awaitPromise"@[0] == 'a');
}

/// A command keeps its method and its parameters, and goes to its session, or to the
/// browser where it has none.
pub proof fn law_command_is_addressed(method: Seq<char>, params: Json, session: Seq<char>)
    ensures
        command(method, params, session).method == method,
        command(method, params, session).params == params,
        command(method, params, session).session_id == Some(session),
        browser_command(method, params).method == method,
        browser_command(method, params).params == params,
        browser_command(method, params).session_id is None,
        one_field(method, params).get(method) == Some(params),
        forall|key: Seq<char>|
            key != method ==> #[trigger] one_field(method, params).get(key) is None,
{
}

/// A call carries its id and all of its command, and names a session just where the
/// command does.
pub proof fn law_call_carries_its_command(id: int, command: CommandView)
    ensures
        ({
            let call = call_json(id, command);
            &&& call.get("id"@) == Some(Json::Int(id))
            &&& call.get("method"@) == Some(Json::Str(command.method))
            &&& call.get("params"@) == Some(command.params)
            &&& call.get("sessionId"@) == match command.session_id {
                Some(s) => Some(Json::Str(s)),
                None => None,
            }
            &&& forall|key: Seq<char>| #[trigger]
                call.get(key) is Some ==> key == "id"@ || key == "method"@ || key == "params"@ || key == "sessionId"@
        }),
{
    reveal_strlit("id");
    reveal_strlit("method");
    reveal_strlit("params");
    reveal_strlit("sessionId");
    assert("id"@[0] == 'i' && "method"@[0] == 'm' && "params"@[0] == 'p' && "sessionId"@[0] == 's');
}

/// The value of an evaluation is the one under its result, as it is; without one it
/// is null.
pub proof fn law_value_is_that_of_the_result(reply: Json, result: Json, value: Json)
    ensures
        reply.get("result"@) == Some(result) && result.get("value"@) == Some(value) ==> evaluated(
            reply,
        ) == value,
        reply.get("result"@) == Some(result) && result.get("value"@) is None ==> evaluated(reply)
            == Json::Null,
        reply.get("result"@) is None ==> evaluated(reply) == Json::Null,
{
}

/// A message ends a call just where it bears the id of that call. It is then an error
/// that shows the message's error where there is one, and otherwise the message's
/// result, or null.
pub proof fn law_message_ends_its_call(id: i64, method: Seq<char>, message: Json)
    ensures
        reply_to(id, method, message) is Some <==> message.get("id"@) == Some(Json::Int(id as int)),
        message.get("id"@) == Some(Json::Int(id as int)) ==> {
            &&& message.get("error"@) matches Some(err) ==> reply_to(id, method, message) == Some(
                Err::<Json, Seq<char>>(
                    "cdp error (method="@ + method + "): "@ + json::json_text(err),
                ),
            )
            &&& message.get("error"@) is None && message.get("result"@) is Some ==> reply_to(
                id,
                method,
                message,
            ) == Some(Ok::<Json, Seq<char>>(message.get("result"@)->0))
            &&& message.get("error"@) is None && message.get("result"@) is None ==> reply_to(
                id,
                method,
                message,
            ) == Some(Ok::<Json, Seq<char>>(Json::Null))
        },
{
}

/// A text that is a message is taken as that message; one that is none, a connection
/// that fails or ends, and a wait that was too long each end the call with an error.
/// Anything else that the connection brings is passed over.
pub proof fn law_what_ends_a_call(id: i64, method: Seq<char>, e: Seq<char>, t: Seq<char>)
    ensures
        received(id, method, ReadView::Timeout) == Some(
            Err::<Json, Seq<char>>("ws read timeout (method="@ + method + ")"@),
        ),
        received(id, method, ReadView::Ended) == Some(
            Err::<Json, Seq<char>>("ws closed (method="@ + method + ")"@),
        ),
        received(id, method, ReadView::Failed(e)) == Some(Err::<Json, Seq<char>>("ws recv: "@ + e)),
        received(id, method, ReadView::Close) == Some(Err::<Json, Seq<char>>("ws closed"@)),
        received(id, method, ReadView::Other) is None,
        json::json_parsed(t) matches Ok(message) ==> received(id, method, ReadView::Text(t))
            == reply_to(id, method, message),
        json::json_parsed(t) matches Err(why) ==> received(id, method, ReadView::Text(t)) == Some(
            Err::<Json, Seq<char>>("decode: "@ + why),
        ),
{
}

/// A path is followed one field after the other, and what it leads to counts where it
/// is a string.
pub proof fn law_path_is_followed(value: Json, key: Seq<char>, rest: Seq<Seq<char>>)
    ensures
        str_at(value, Seq::empty()) == match value {
            Json::Str(s) => Some(s),
            _ => None,
        },
        str_at(value, seq![key]) == match value.get(key) {
            Some(Json::Str(s)) => Some(s),
            _ => None,
        },
        str_at(value, seq![key] + rest) == match value.get(key) {
            Some(field) => str_at(field, rest),
            None => None,
        },
{
    reveal_with_fuel(json::at_path, 2);
    assert((seq![key] + rest).drop_first() =~= rest);
    assert(seq![key].drop_first() =~= Seq::empty());
}

/// A command, and what was read, are modelled by what they hold.
pub proof fn law_model_is_what_is_held(command: CdpCommand, read: CdpRead)
    ensures
        command@.method == command.method@,
        command@.params == json::json_of(command.params),
        command.session_id matches Some(s) ==> command@.session_id == Some(s@),
        command.session_id is None ==> command@.session_id is None,
        match read {
            CdpRead::Timeout => read@ == ReadView::Timeout,
            CdpRead::Ended => read@ == ReadView::Ended,
            CdpRead::Failed(e) => read@ == ReadView::Failed(e@),
            CdpRead::Text(t) => read@ == ReadView::Text(t@),
            CdpRead::Other => read@ == ReadView::Other,
            CdpRead::Close => read@ == ReadView::Close,
        },
{
}

} // verus!
