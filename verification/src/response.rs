//! What an answer means.
//!
//! The status of an answer decides what its body is read as: a payload under a status
//! of success, the record of a refusal under any other. A body that cannot be read
//! as what its status promises is a parse error, whatever else it might be read as.

use crate::codec::{lemma_absent_is_refused, JsonCodec, Reading, StepView};
use crate::error::{outcome_of, HttpError, JikanError, JikanResult, JsonError, Outcome};
use crate::json::{json_of, parse, parse_json, Json};
use crate::models::{JikanAPIError, JikanResponse};
use crate::transport::Response;
use serde_json::Value;
use vstd::prelude::*;

verus! {

/// Whether a status tells of success: the statuses from 200 to 299.
pub open spec fn is_success(status: u16) -> bool {
    200 <= status < 300
}

/// What an answer comes to, given its status and what its body reads as (`None` for a
/// body that is not a JSON text).
///
/// The status alone decides what the body is read as: the envelope of a `T` under a
/// status of success, the record of a refusal under any other.
pub open spec fn answer<T: JsonCodec>(status: u16, body: Option<Json>) -> Outcome<T::V> {
    match body {
        None => Outcome::Syntax,
        Some(j) => if is_success(status) {
            match T::decode(j) {
                Reading::Value(x) => Outcome::Payload(x),
                Reading::Mismatch(path) => Outcome::Shape(path),
            }
        } else {
            match JikanAPIError::decode(j) {
                Reading::Value(e) => Outcome::Api(e),
                Reading::Mismatch(path) => Outcome::Shape(path),
            }
        },
    }
}

/// What a reply of the transport comes to, read as a `T`.
pub open spec fn concluded<T: JsonCodec>(reply: Result<Response, HttpError>) -> Outcome<T::V> {
    match reply {
        Ok(res) => answer::<T>(res.status, parse_json(res.body@)),
        Err(HttpError::InvalidUrl) => Outcome::InvalidUrl,
        Err(HttpError::Transport(report)) => Outcome::Transport(report@),
    }
}

/// The outcome for the payload inside an envelope.
pub open spec fn unwrapped<V>(outcome: Outcome<JikanResponse<V>>) -> Outcome<V> {
    match outcome {
        Outcome::Payload(envelope) => Outcome::Payload(envelope.data),
        Outcome::Syntax => Outcome::Syntax,
        Outcome::Shape(path) => Outcome::Shape(path),
        Outcome::InvalidUrl => Outcome::InvalidUrl,
        Outcome::Transport(report) => Outcome::Transport(report),
        Outcome::Api(e) => Outcome::Api(e),
        Outcome::Unknown => Outcome::Unknown,
    }
}

/// The status alone decides between a payload and a refusal: no payload comes of a
/// status that tells of failure, and no refusal of one that tells of success.
pub proof fn lemma_status_decides<T: JsonCodec>(status: u16, body: Option<Json>)
    ensures
        answer::<T>(status, body) is Payload ==> is_success(status),
        answer::<T>(status, body) is Api ==> !is_success(status),
{
}

/// A body without a `data` member, such as the record of a refusal, is not taken for
/// a payload when it comes under a status of success: the answer is an error of shape,
/// and what is found wanting is the member `data`.
pub proof fn lemma_refusal_under_success<T: JsonCodec>(status: u16, j: Json)
    requires
        is_success(status),
        JikanAPIError::decode(j) is Value,
        !j.has("data"@),
    ensures
        answer::<JikanResponse<T>>(status, Some(j)) == Outcome::<JikanResponse<T::V>>::Shape(
            seq![StepView::Member("data"@)],
        ),
{
    lemma_absent_is_refused::<T>(j, "data"@);
}

/// Reads what was parsed of a body as the status says it must be read. Where the body
/// could not be parsed, the error carries the report of the parser.
pub fn classify<T: JsonCodec>(status: u16, parsed: Result<Value, serde_json::Error>) -> (r:
    JikanResult<T>)
    ensures
        outcome_of(r) == answer::<T>(
            status,
            match parsed {
                Ok(v) => Some(json_of(v)),
                Err(_) => None,
            },
        ),
        parsed matches Err(e) ==> r matches Err(JikanError::Json(JsonError::Syntax(f))) && f == e,
{
    let value = match parsed {
        Ok(value) => value,
        Err(e) => return Err(JikanError::Json(JsonError::Syntax(e))),
    };
    if 200 <= status && status < 300 {
        match T::from_json(&value) {
            Ok(x) => Ok(x),
            Err(e) => Err(JikanError::Json(JsonError::Shape(e))),
        }
    } else {
        match JikanAPIError::from_json(&value) {
            Ok(e) => Err(JikanError::API(e)),
            Err(e) => Err(JikanError::Json(JsonError::Shape(e))),
        }
    }
}

/// Reads an answer as a `T`, or as the refusal that its status announces.
pub fn parse_json_response<T: JsonCodec>(res: Response) -> (r: JikanResult<T>)
    ensures
        outcome_of(r) == answer::<T>(res.status, parse_json(res.body@)),
{
    classify::<T>(res.status, parse(res.body.as_slice()))
}

/// What a reply of the transport comes to, read as a `T`.
pub fn conclude<T: JsonCodec>(reply: Result<Response, HttpError>) -> (r: JikanResult<T>)
    ensures
        outcome_of(r) == concluded::<T>(reply),
{
    match reply {
        Ok(res) => parse_json_response::<T>(res),
        Err(e) => Err(JikanError::Http(e)),
    }
}

} // verus!
