//! HTTP replies as the handlers give them: a status and a JSON body.

use vstd::prelude::*;
use crate::json::{Json, JsonValue, json_from_str, members_view, lemma_members_view};

verus! {

/// An HTTP reply: its status code and its JSON body.
pub struct Reply {
    pub status: u16,
    pub body: JsonValue,
}

/// The body `{"error": msg}`.
pub open spec fn error_body(msg: Seq<char>) -> Json {
    Json::Object(seq![("error"@, Json::Str(msg))])
}

/// The body `{"success": true, "message": msg}`.
pub open spec fn success_message_body(msg: Seq<char>) -> Json {
    Json::Object(seq![("success"@, Json::Bool(true)), ("message"@, Json::Str(msg))])
}

/// The body `{"success": true}`.
pub open spec fn success_body() -> Json {
    Json::Object(seq![("success"@, Json::Bool(true))])
}

/// Whether a reply has the given status and body.
pub open spec fn is_reply(r: Reply, status: u16, body: Json) -> bool {
    r.status == status && r.body@ == body
}

/// Whether an optional reply is the refusal with the given status and
/// message.
pub open spec fn refusal_is(r: Option<Reply>, status: u16, msg: Seq<char>) -> bool {
    match r {
        Some(rep) => is_reply(rep, status, error_body(msg)),
        None => false,
    }
}

/// A reply `{"error": msg}` with the given status.
pub fn error_reply(status: u16, msg: &str) -> (r: Reply)
    ensures
        is_reply(r, status, error_body(msg@)),
{
    let mut members: Vec<(String, JsonValue)> = Vec::new();
    members.push(("error".to_owned(), json_from_str(msg)));
    proof {
        lemma_members_view(members@);
    }
    assert(members_view(members@) =~= seq![("error"@, Json::Str(msg@))]);
    Reply { status, body: JsonValue::Object(members) }
}

/// A reply `{"success": true, "message": msg}` with status 200.
pub fn success_message(msg: &str) -> (r: Reply)
    ensures
        is_reply(r, 200, success_message_body(msg@)),
{
    let mut members: Vec<(String, JsonValue)> = Vec::new();
    members.push(("success".to_owned(), JsonValue::Bool(true)));
    members.push(("message".to_owned(), json_from_str(msg)));
    proof {
        lemma_members_view(members@);
    }
    assert(members_view(members@) =~= seq![("success"@, Json::Bool(true)), ("message"@, Json::Str(msg@))]);
    Reply { status: 200, body: JsonValue::Object(members) }
}

/// A reply `{"success": true}` with status 200.
pub fn success() -> (r: Reply)
    ensures
        is_reply(r, 200, success_body()),
{
    let mut members: Vec<(String, JsonValue)> = Vec::new();
    members.push(("success".to_owned(), JsonValue::Bool(true)));
    proof {
        lemma_members_view(members@);
    }
    assert(members_view(members@) =~= seq![("success"@, Json::Bool(true))]);
    Reply { status: 200, body: JsonValue::Object(members) }
}

} // verus!
