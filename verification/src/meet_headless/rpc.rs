//! What the handlers of the headless runner answer.

use crate::json::{self, value_bool, value_object, value_set, value_str, value_uint, Json};
use crate::meet_headless::runner::SessionSummary;
use crate::text::concat;
use serde_json::Value;
use vstd::prelude::*;

verus! {

pub const LOG_PREFIX: &'static str = "[meet-headless-rpc]";

/// Where the handling of a call can fail.
#[derive(Debug, Clone, Copy, PartialEq, Eq, Structural)]
pub enum RpcStage {
    /// The parameters of a start cannot be read.
    StartParams,
    /// The address or the name in them is refused.
    Validation,
    /// The session does not start.
    Start,
    /// The parameters of a stop cannot be read.
    StopParams,
    /// The session does not stop.
    Stop,
}

/// What stands in front of the reason in an error.
pub open spec fn stage_prefix(stage: RpcStage) -> Seq<char> {
    match stage {
        RpcStage::StartParams => "[meet-headless-rpc] invalid start params: "@,
        RpcStage::Validation => "[meet-headless-rpc] "@,
        RpcStage::Start => "[meet-headless-rpc] start: "@,
        RpcStage::StopParams => "[meet-headless-rpc] invalid stop params: "@,
        RpcStage::Stop => "[meet-headless-rpc] stop: "@,
    }
}

/// The error of a call that fails at a stage.
pub fn rpc_error(stage: RpcStage, err: &str) -> (r: String)
    ensures
        r@ == stage_prefix(stage) + err@,
        stage is StartParams ==> r@ == "[meet-headless-rpc] invalid start params: "@ + err@,
        stage is Validation ==> r@ == "[meet-headless-rpc] "@ + err@,
        stage is Start ==> r@ == "[meet-headless-rpc] start: "@ + err@,
        stage is StopParams ==> r@ == "[meet-headless-rpc] invalid stop params: "@ + err@,
        stage is Stop ==> r@ == "[meet-headless-rpc] stop: "@ + err@,
{
    match stage {
        RpcStage::StartParams => concat("[meet-headless-rpc] invalid start params: ", err),
        RpcStage::Validation => concat("[meet-headless-rpc] ", err),
        RpcStage::Start => concat("[meet-headless-rpc] start: ", err),
        RpcStage::StopParams => concat("[meet-headless-rpc] invalid stop params: ", err),
        RpcStage::Stop => concat("[meet-headless-rpc] stop: ", err),
    }
}

/// The answer to a start.
pub fn start_answer(request_id: &str, meet_url: &str) -> (r: Value)
    ensures
        json::json_of(r) == Json::Object(
            Map::empty().insert("ok"@, Json::Bool(true)).insert(
                "request_id"@,
                Json::Str(request_id@),
            ).insert("meet_url"@, Json::Str(meet_url@)),
        ),
{
    let mut answer: Value = value_object();
    value_set(&mut answer, "ok", value_bool(true));
    value_set(&mut answer, "request_id", value_str(request_id));
    value_set(&mut answer, "meet_url", value_str(meet_url));
    answer
}

/// The answer to a stop.
pub fn stop_answer(summary: &SessionSummary) -> (r: Value)
    ensures
        json::json_of(r) == Json::Object(
            Map::empty().insert("ok"@, Json::Bool(true)).insert(
                "request_id"@,
                Json::Str(summary.request_id@),
            ).insert("captions_seen"@, Json::Int(summary.captions_seen as int)),
        ),
{
    let mut answer: Value = value_object();
    value_set(&mut answer, "ok", value_bool(true));
    value_set(&mut answer, "request_id", value_str(summary.request_id.as_str()));
    value_set(&mut answer, "captions_seen", value_uint(summary.captions_seen));
    answer
}

} // verus!
