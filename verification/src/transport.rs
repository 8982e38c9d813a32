//! The way to the service.
//!
//! The library does no I/O of its own. It hands each [`Request`] to a [`Transport`]
//! and takes back a [`Response`], or the reason why there is none.

use crate::error::HttpError;
use crate::request::{Request, RequestView};
use vstd::prelude::*;

verus! {

/// What a transport hands back: the status of the answer and its whole body.
#[derive(Debug, Clone, PartialEq, Eq)]
pub struct Response {
    pub status: u16,
    pub body: Vec<u8>,
}

/// Something that can send a request and wait for the answer.
///
/// Nothing is asked of an implementation: the client copes with whatever comes back.
/// An implementation that knows more of its replies says so in `answers`.
pub trait Transport {
    /// Whether `reply` is what this transport may give for `request`, sent to `url`.
    /// Unless an implementation says otherwise, anything is.
    open spec fn answers(
        &self,
        url: Seq<char>,
        request: RequestView,
        reply: Result<Response, HttpError>,
    ) -> bool {
        true
    }

    /// Sends `request` to `url`, and returns the answer or the reason why there is none.
    fn send(&self, url: &str, request: &Request) -> (reply: Result<Response, HttpError>)
        ensures
            self.answers(url@, request.deep_view(), reply),
    ;
}

/// Whether two replies say the same.
pub open spec fn same_reply(
    a: Result<Response, HttpError>,
    b: Result<Response, HttpError>,
) -> bool {
    match (a, b) {
        (Ok(x), Ok(y)) => x.status == y.status && x.body@ == y.body@,
        (Err(HttpError::InvalidUrl), Err(HttpError::InvalidUrl)) => true,
        (Err(HttpError::Transport(x)), Err(HttpError::Transport(y))) => x@ == y@,
        _ => false,
    }
}

/// A transport that has one reply for whatever it is asked. It serves to try a client
/// where there is no network.
#[derive(Debug)]
pub struct Canned {
    pub reply: Result<Response, HttpError>,
}

impl Transport for Canned {
    open spec fn answers(
        &self,
        url: Seq<char>,
        request: RequestView,
        reply: Result<Response, HttpError>,
    ) -> bool {
        same_reply(reply, self.reply)
    }

    fn send(&self, url: &str, request: &Request) -> (reply: Result<Response, HttpError>) {
        match &self.reply {
            Ok(res) => Ok(Response { status: res.status, body: res.body.clone() }),
            Err(HttpError::InvalidUrl) => Err(HttpError::InvalidUrl),
            Err(HttpError::Transport(report)) => Err(HttpError::Transport(report.clone())),
        }
    }
}

} // verus!
