//! What a call can come to.

use crate::codec::{Mismatch, StepView};
use crate::models::{JikanAPIError, JikanAPIErrorView};
use vstd::prelude::*;

verus! {

/// What a call returns: what was asked for, or the reason why not.
pub type JikanResult<T> = Result<T, JikanError>;

/// Why a body could not be read.
#[derive(Debug)]
pub enum JsonError {
    /// The body is not a JSON text. Carries what `serde_json` reported.
    Syntax(serde_json::Error),
    /// The body is a JSON text, but not of the shape that was expected. Carries the
    /// place where it departs from that shape.
    Shape(Mismatch),
}

/// Why no answer was received.
#[derive(Debug, Clone, PartialEq, Eq)]
pub enum HttpError {
    /// The base address and the path make no address, so the request has nowhere to
    /// go. Nothing was sent.
    InvalidUrl,
    /// The transport failed. Carries its report.
    Transport(String),
}

/// Why a call did not return what was asked for.
#[derive(Debug)]
pub enum JikanError {
    /// The body of the answer could not be read as what its status promised.
    Json(JsonError),
    /// No answer was received.
    Http(HttpError),
    /// The service refused the request, and said why.
    API(JikanAPIError),
    /// None of the above. The library itself never returns this.
    Unknown,
}

impl JikanError {
    /// The kind of error, in a few words.
    pub fn message(&self) -> (r: &'static str)
        ensures
            r@ == (match self {
                JikanError::Json(_) => "invalid json data"@,
                JikanError::Http(_) => "http error"@,
                JikanError::API(_) => "jikan api error"@,
                JikanError::Unknown => "unknown error"@,
            }),
    {
        match self {
            JikanError::Json(_) => "invalid json data",
            JikanError::Http(_) => "http error",
            JikanError::API(_) => "jikan api error",
            JikanError::Unknown => "unknown error",
        }
    }
}

/// What a call comes to, as a value of mathematics.
pub enum Outcome<V> {
    /// The payload that was asked for.
    Payload(V),
    /// The body was not a JSON text.
    Syntax,
    /// The body was a JSON text of another shape than the status promised, and departs
    /// from that shape at this place.
    Shape(Seq<StepView>),
    /// The base address and the path make no address.
    InvalidUrl,
    /// The transport failed, with this report.
    Transport(Seq<char>),
    /// The service refused, with this record.
    Api(JikanAPIErrorView),
    /// None of the above.
    Unknown,
}

/// What a result stands for.
pub open spec fn outcome_of<T: DeepView>(r: JikanResult<T>) -> Outcome<T::V> {
    match r {
        Ok(x) => Outcome::Payload(x.deep_view()),
        Err(JikanError::Json(JsonError::Syntax(_))) => Outcome::Syntax,
        Err(JikanError::Json(JsonError::Shape(e))) => Outcome::Shape(e.deep_view()),
        Err(JikanError::Http(HttpError::InvalidUrl)) => Outcome::InvalidUrl,
        Err(JikanError::Http(HttpError::Transport(report))) => Outcome::Transport(report@),
        Err(JikanError::API(e)) => Outcome::Api(e.deep_view()),
        Err(JikanError::Unknown) => Outcome::Unknown,
    }
}

} // verus!
