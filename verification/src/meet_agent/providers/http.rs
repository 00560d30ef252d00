//! Requests to a provider over HTTP, and what comes back.

use crate::json::{self, Json};
use serde_json::Value;
use vstd::prelude::*;

verus! {

/// A request to post: a JSON body to a URL, with some headers.
#[derive(Debug)]
pub struct HttpRequest {
    pub url: String,
    pub headers: Vec<(String, String)>,
    pub body: Value,
}

/// What an [`HttpRequest`] holds.
pub struct RequestView {
    pub url: Seq<char>,
    pub headers: Seq<(Seq<char>, Seq<char>)>,
    pub body: Json,
}

impl View for HttpRequest {
    type V = RequestView;

    open spec fn view(&self) -> RequestView {
        RequestView {
            url: self.url@,
            headers: Seq::new(
                self.headers@.len(),
                |i: int| (self.headers@[i].0@, self.headers@[i].1@),
            ),
            body: json::json_of(self.body),
        }
    }
}

/// What came back for a request.
#[derive(Debug)]
pub enum HttpReply {
    /// Nothing: the request failed, for this reason.
    Failed(String),
    /// An answer whose status is no success, with its body.
    Status { status: String, text: String },
    /// An answer that is no JSON, for this reason.
    NotJson(String),
    /// An answer in JSON.
    Json(Value),
}

/// What an [`HttpReply`] holds.
pub enum ReplyView {
    Failed(Seq<char>),
    Status { status: Seq<char>, text: Seq<char> },
    NotJson(Seq<char>),
    Json(Json),
}

impl View for HttpReply {
    type V = ReplyView;

    open spec fn view(&self) -> ReplyView {
        match *self {
            HttpReply::Failed(e) => ReplyView::Failed(e@),
            HttpReply::Status { status, text } => ReplyView::Status { status: status@, text: text@ },
            HttpReply::NotJson(e) => ReplyView::NotJson(e@),
            HttpReply::Json(v) => ReplyView::Json(json::json_of(v)),
        }
    }
}

// ---------------------------------------------------------------------------
// Laws
// ---------------------------------------------------------------------------

/// A request and a reply are modelled by what they hold, header by header.
pub proof fn law_model_is_what_is_held(request: HttpRequest, reply: HttpReply, i: int)
    ensures
        request@.url == request.url@,
        request@.body == json::json_of(request.body),
        request@.headers.len() == request.headers@.len(),
        0 <= i < request.headers@.len() ==> request@.headers[i].0 == request.headers@[i].0@
            && request@.headers[i].1 == request.headers@[i].1@,
        match reply {
            HttpReply::Failed(e) => reply@ == ReplyView::Failed(e@),
            HttpReply::Status { status, text } => reply@ == (ReplyView::Status {
                status: status@,
                text: text@,
            }),
            HttpReply::NotJson(e) => reply@ == ReplyView::NotJson(e@),
            HttpReply::Json(v) => reply@ == ReplyView::Json(json::json_of(v)),
        },
{
}

} // verus!
