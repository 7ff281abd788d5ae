//! Classifying the HTTP response of a chat-completion call.
//!
//! A non-success status is an upstream error carrying the body verbatim.
//! A success status is parsed as JSON; the reply, if any, is the string
//! at `choices[0].message.content`. A missing reply is not an error.

use vstd::prelude::*;

use crate::config::ChatError;

verus! {

/// Whether a byte string parses as one JSON document.
pub uninterp spec fn json_wf(body: Seq<u8>) -> bool;

/// The string at `choices[0].message.content` of the parsed document,
/// if the document holds one there.
pub uninterp spec fn json_reply(body: Seq<u8>) -> Option<Seq<u8>>;

/// Relies on serde_json::from_slice to decide whether the body is valid
/// JSON, and on serde_json::Value::pointer with Value::as_str to read
/// the string at /choices/0/message/content. Both results are functions
/// of the body bytes alone.
#[verifier::external_body]
fn parse_reply(body: &[u8]) -> (r: Option<Option<Vec<u8>>>)
    ensures
        r is Some <==> json_wf(body@),
        (match r {
            Some(Some(v)) => json_reply(body@) matches Some(s) && v@ == s,
            Some(None) => json_reply(body@) is None,
            None => !json_wf(body@),
        }),
{
    let doc: serde_json::Value = match serde_json::from_slice(body) {
        Ok(v) => v,
        Err(_) => return None,
    };
    match doc.pointer("/choices/0/message/content").and_then(serde_json::Value::as_str) {
        Some(s) => Some(Some(s.as_bytes().to_vec())),
        None => Some(None),
    }
}

/// An HTTP success status.
pub open spec fn is_success_status(status: u16) -> bool {
    200 <= status < 300
}

/// Decide what a completed HTTP exchange means.
///
/// A non-success status fails with the body text as an upstream error.
/// A success status whose body is not JSON fails as a malformed reply.
/// Otherwise the call succeeds, with the reply content if the document
/// holds one and nothing if it does not.
pub fn response_outcome(status: u16, body: Vec<u8>) -> (r: Result<Option<Vec<u8>>, ChatError>)
    ensures
        !is_success_status(status) ==> (r matches Err(e) && e matches ChatError::Upstream(b)
            && b@ == body@),
        is_success_status(status) && !json_wf(body@) ==> (r matches Err(e) && e
            == ChatError::MalformedReply),
        is_success_status(status) && json_wf(body@) ==> (r matches Ok(rep) && (match (
            rep,
            json_reply(body@),
        ) {
            (Some(v), Some(s)) => v@ == s,
            (None, None) => true,
            _ => false,
        })),
{
    if !(200 <= status && status < 300) {
        return Err(ChatError::Upstream(body));
    }
    match parse_reply(body.as_slice()) {
        Some(rep) => Ok(rep),
        None => Err(ChatError::MalformedReply),
    }
}

} // verus!
