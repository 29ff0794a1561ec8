//! Reading the body of a backend response as JSON.

use crate::search::errors::RequestError;
use serde_json::Value;
use vstd::prelude::*;

verus! {

/// A JSON value of `serde_json`. The library hands it on and never looks
/// inside.
#[verifier::external_type_specification]
#[verifier::external_body]
pub struct ExJsonValue(Value);

/// What `serde_json::from_str` makes of `text` when it is asked for a
/// `Value`: the value that the text denotes, or the error with which the text
/// is rejected.
pub uninterp spec fn json_parse(text: Seq<char>) -> Result<Value, serde_json::Error>;

/// Calls `serde_json::from_str` for a `Value`. The call reads its argument
/// and nothing else, and it returns for every text, so its result is
/// `json_parse` of the text.
#[verifier::external_body]
fn parse_json(text: &str) -> (parsed: Result<Value, serde_json::Error>)
    ensures
        parsed == json_parse(text@),
{
    serde_json::from_str(text)
}

/// The outcome of a backend call for each result of reading its body: the
/// value unchanged, or a `Json` failure that holds the cause.
pub open spec fn body_outcome(parsed: Result<Value, serde_json::Error>) -> Result<
    Value,
    RequestError,
> {
    match parsed {
        Ok(value) => Ok(value),
        Err(cause) => Err(RequestError::Json(cause)),
    }
}

/// Turns the result of reading a body into the outcome of the call.
pub fn outcome_of_body(parsed: Result<Value, serde_json::Error>) -> (outcome: Result<
    Value,
    RequestError,
>)
    ensures
        outcome == body_outcome(parsed),
{
    match parsed {
        Ok(value) => Ok(value),
        Err(cause) => Err(RequestError::from(cause)),
    }
}

/// Reads the body of a 200 response. The outcome is the JSON value of the
/// body where it has one, and a `Json` failure with the parser's error where
/// it has none.
pub fn decode_body(body: &str) -> (outcome: Result<Value, RequestError>)
    ensures
        outcome == body_outcome(json_parse(body@)),
{
    outcome_of_body(parse_json(body))
}

} // verus!
