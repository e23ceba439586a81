//! Order-book snapshot retrieval: a success reply whose text is JSON is
//! deserialized into a JSON value; a text that does not parse is a JSON
//! error, distinct from a server error.

use vstd::prelude::*;
use crate::dispatch::{interpret_reply, spec_reply, SpecReply};
use crate::error::SeismicError;

verus! {

/// serde_json::Value, the deserialized snapshot, carried opaquely.
#[verifier::external_type_specification]
#[verifier::external_body]
pub struct ExValue(serde_json::Value);

/// serde_json::Error, what its deserializer reports; mapped to the
/// library's own error kind right after the call.
#[verifier::external_type_specification]
#[verifier::external_body]
pub struct ExJsonError(serde_json::Error);

/// Whether serde_json parses the text as one JSON value; a function of the
/// characters alone.
pub uninterp spec fn json_accepts(s: Seq<char>) -> bool;

/// Relies on serde_json::from_str::<Value>: whether the text parses as JSON
/// depends on the characters alone.
#[verifier::external_body]
fn json_value_from_str(s: &str) -> (r: Result<serde_json::Value, serde_json::Error>)
    ensures
        r is Ok <==> json_accepts(s@),
{
    serde_json::from_str::<serde_json::Value>(s)
}

/// Deserializes a snapshot reply's text. Succeeds exactly when the text is
/// JSON; a text that does not parse is a `JsonError`, never a server error.
pub fn parse_snapshot(text: &str) -> (r: Result<serde_json::Value, SeismicError>)
    ensures
        r is Ok <==> json_accepts(text@),
        !json_accepts(text@) ==> r == Err::<serde_json::Value, SeismicError>(
            SeismicError::JsonError,
        ),
{
    match json_value_from_str(text) {
        Ok(v) => Ok(v),
        Err(_) => Err(SeismicError::JsonError),
    }
}

/// Interprets the framed reply to an `OB <name>\n` command: a success
/// reply's text is deserialized as JSON, every failure reply keeps the
/// meaning the dispatcher gives it, and a success text that is not JSON is
/// a `JsonError`.
pub fn orderbook_snapshot_reply(success: bool, payload: &[u8]) -> (r: Result<
    serde_json::Value,
    SeismicError,
>)
    ensures
        match spec_reply(success, payload@) {
            SpecReply::Success(t) => (json_accepts(t) <==> r is Ok) && (!json_accepts(t)
                ==> r == Err::<serde_json::Value, SeismicError>(SeismicError::JsonError)),
            SpecReply::NotFound(n) => r matches Err(SeismicError::DBNotFoundError(x)) && x@ == n,
            SpecReply::Failure(t) => r matches Err(SeismicError::ServerError(x)) && x@ == t,
            SpecReply::Malformed => r == Err::<serde_json::Value, SeismicError>(
                SeismicError::SerialError,
            ),
        },
{
    match interpret_reply(success, payload) {
        Ok(text) => parse_snapshot(text.as_str()),
        Err(e) => Err(e),
    }
}

} // verus!
