//! The client.
//!
//! A [`JikanClient`] holds the base address of the service and a transport. For each
//! operation it makes the request, has the transport send it, and reads the reply.
//! Nothing is sent where there is no base address, or where the base address and the
//! path do not make an address.
//! The three steps can also be taken one by one, by a caller that does its own
//! sending: [`JikanClient::anime_request`] and [`JikanClient::address`] say what to
//! send and where to, and [`anime_reply`] reads what came back.

use crate::error::{outcome_of, HttpError, JikanError, JikanResult, Outcome};
use crate::models::anime::{Anime, AnimeView};
use crate::models::JikanResponse;
use crate::request::{built_headers, Method, Request, RequestView};
use crate::response::{conclude, concluded, unwrapped};
use crate::text::{decimal, push_decimal};
use crate::transport::{Canned, Response, Transport};
use crate::uri::{is_uri, reads_as_uri};
use vstd::prelude::*;
use vstd::string::StringExecFns;

verus! {

/// The address of the public service.
pub const DEFAULT_API_URL: &'static str = "https://api.jikan.moe/v4";

/// The path under which the service keeps its anime, with the stroke that follows it.
pub const ANIME_PATH: &'static str = "anime/";

/// The path of the anime with the number `id`.
pub open spec fn anime_path_of(id: u32) -> Seq<char> {
    ANIME_PATH@ + decimal(id as nat)
}

/// The path of the anime with the number `id`.
pub fn anime_path(id: u32) -> (r: String)
    ensures
        r@ == anime_path_of(id),
{
    let mut path = String::from_str(ANIME_PATH);
    push_decimal(&mut path, id as u64);
    path
}

/// What the reply to a request for an anime comes to.
pub fn anime_reply(reply: Result<Response, HttpError>) -> (r: JikanResult<Anime>)
    ensures
        outcome_of(r) == unwrapped(concluded::<JikanResponse<Anime>>(reply)),
{
    match conclude::<JikanResponse<Anime>>(reply) {
        Ok(envelope) => Ok(envelope.data),
        Err(e) => Err(e),
    }
}

/// A client of the service: the base address, and the transport that reaches it.
#[derive(Clone)]
pub struct JikanClient<C> {
    api_url: String,
    http_client: C,
}

impl<C> JikanClient<C> {
    /// The base address.
    pub closed spec fn base(&self) -> Seq<char> {
        self.api_url@
    }

    /// The transport.
    pub closed spec fn transport(&self) -> C {
        self.http_client
    }

    /// Whether this is `before` with its base address replaced by `url`.
    pub open spec fn is_reconfigured(&self, before: Self, url: Seq<char>) -> bool {
        self.base() == url && self.transport() == before.transport()
    }

    /// The address of `path`: the base address, a stroke, and the path.
    pub open spec fn address_of(&self, path: Seq<char>) -> Seq<char> {
        self.base() + "/"@ + path
    }

    /// Whether this client can reach `path`: it has a base address, and the address of
    /// `path` reads as a URI.
    pub open spec fn reaches(&self, path: Seq<char>) -> bool {
        self.base().len() > 0 && reads_as_uri(self.address_of(path))
    }

    /// The request that this client makes for `path`, if it makes one: a `GET` with the
    /// library's own header and no body. A client that cannot reach `path` makes none.
    pub open spec fn planned(&self, path: Seq<char>) -> Option<RequestView> {
        if !self.reaches(path) {
            None
        } else {
            Some(
                RequestView {
                    method: Method::Get,
                    path: path,
                    headers: built_headers(None),
                    body: None,
                },
            )
        }
    }

    /// What sending the request for `path` comes to if the transport, should it be
    /// asked, replies `reply`: its answer, or its failure as an error of the transport
    /// kind. A client that cannot reach `path` never asks.
    pub open spec fn requested(
        &self,
        path: Seq<char>,
        reply: Result<Response, HttpError>,
    ) -> JikanResult<Response> {
        if !self.reaches(path) {
            Err(JikanError::Http(HttpError::InvalidUrl))
        } else {
            match reply {
                Ok(res) => Ok(res),
                Err(e) => Err(JikanError::Http(e)),
            }
        }
    }

    /// What fetching the anime with the number `id` comes to if the transport, should
    /// it be asked, replies `reply`. A client that cannot reach the path of that anime
    /// never asks.
    pub open spec fn fetched(&self, id: u32, reply: Result<Response, HttpError>) -> Outcome<
        AnimeView,
    > {
        if !self.reaches(anime_path_of(id)) {
            Outcome::InvalidUrl
        } else {
            unwrapped(concluded::<JikanResponse<Anime>>(reply))
        }
    }

    /// A fetch never ends in the error that stands for what the library cannot name.
    pub proof fn lemma_fetched_is_named(&self, id: u32, reply: Result<Response, HttpError>)
        ensures
            !(self.fetched(id, reply) is Unknown),
    {
    }

    /// With an empty base address no request is made and nothing is fetched: whatever
    /// the transport would reply, the call ends in an error of the transport kind.
    pub proof fn lemma_empty_base_fails(
        &self,
        before: Self,
        url: Seq<char>,
        path: Seq<char>,
        id: u32,
        reply: Result<Response, HttpError>,
    )
        requires
            self.is_reconfigured(before, url),
            url.len() == 0,
        ensures
            self.planned(path) is None,
            self.requested(path, reply) matches Err(JikanError::Http(HttpError::InvalidUrl)),
            self.fetched(id, reply) == Outcome::<AnimeView>::InvalidUrl,
    {
    }

    /// Where the base address and the path do not make an address, no request is made
    /// and nothing is sent: whatever the transport would reply, the call ends in an
    /// error of the transport kind.
    pub proof fn lemma_no_address_fails(
        &self,
        path: Seq<char>,
        id: u32,
        reply: Result<Response, HttpError>,
    )
        ensures
            !reads_as_uri(self.address_of(path)) ==> self.planned(path) is None
                && self.requested(path, reply) matches Err(
                JikanError::Http(HttpError::InvalidUrl),
            ),
            !reads_as_uri(self.address_of(anime_path_of(id))) ==> self.fetched(id, reply)
                == Outcome::<AnimeView>::InvalidUrl,
    {
    }

    /// A client for the service at `api_url`, reached through `http_client`.
    pub fn new(api_url: String, http_client: C) -> (r: Self)
        ensures
            r.base() == api_url@,
            r.transport() == http_client,
    {
        JikanClient { api_url, http_client }
    }

    /// The base address.
    pub fn api_url(self) -> (r: String)
        ensures
            r@ == self.base(),
    {
        self.api_url
    }

    /// The transport.
    pub fn http_client(&self) -> (r: &C)
        ensures
            *r == self.transport(),
    {
        &self.http_client
    }

    /// This client with another transport.
    pub fn with_http_client(self, http_client: C) -> (r: Self)
        ensures
            r.base() == self.base(),
            r.transport() == http_client,
    {
        let mut r = self;
        r.http_client = http_client;
        r
    }

    /// This client with another base address.
    pub fn with_api_url(self, api_url: String) -> (r: Self)
        ensures
            r.is_reconfigured(self, api_url@),
    {
        let mut r = self;
        r.api_url = api_url;
        r
    }

    /// The address of `path`.
    pub fn address(&self, path: &str) -> (r: String)
        ensures
            r@ == self.address_of(path@),
    {
        let mut r = self.api_url.clone();
        r.append("/");
        r.append(path);
        r
    }

    /// Whether this client can reach `path`.
    pub fn can_reach(&self, path: &str) -> (r: bool)
        ensures
            r == self.reaches(path@),
    {
        if self.api_url.as_str().is_empty() {
            return false;
        }
        let address = self.address(path);
        is_uri(address.as_str())
    }

    /// The request for `path`, or an error of the transport kind where the client
    /// cannot reach `path`.
    pub fn request(&self, path: String) -> (r: JikanResult<Request>)
        ensures
            match r {
                Ok(request) => self.planned(path@) == Some(request.deep_view()),
                Err(e) => self.planned(path@) is None && e matches JikanError::Http(
                    HttpError::InvalidUrl,
                ),
            },
    {
        if !self.can_reach(path.as_str()) {
            return Err(JikanError::Http(HttpError::InvalidUrl));
        }
        match Request::builder().method(Method::Get).path(path).build() {
            Ok(request) => Ok(request),
            Err(_) => Err(JikanError::Unknown),
        }
    }

    /// The request for the anime with the number `id`.
    pub fn anime_request(&self, id: u32) -> (r: JikanResult<Request>)
        ensures
            match r {
                Ok(request) => self.planned(anime_path_of(id)) == Some(request.deep_view()),
                Err(e) => self.planned(anime_path_of(id)) is None && e matches JikanError::Http(
                    HttpError::InvalidUrl,
                ),
            },
    {
        self.request(anime_path(id))
    }
}

impl JikanClient<Canned> {
    /// Over a canned transport the outcome of a fetch is known beforehand: it is what
    /// the canned reply comes to, where the client can reach the anime at all.
    pub proof fn lemma_canned_fetch(&self, id: u32, reply: Result<Response, HttpError>)
        requires
            self.replies(anime_path_of(id), reply),
        ensures
            self.fetched(id, reply) == (if self.reaches(anime_path_of(id)) {
                unwrapped(concluded::<JikanResponse<Anime>>(self.transport().reply))
            } else {
                Outcome::InvalidUrl
            }),
    {
    }
}

impl<C: Default> Default for JikanClient<C> {
    /// A client for the public service, with the transport's own default.
    fn default() -> (r: Self)
        ensures
            r.base() == DEFAULT_API_URL@,
            call_ensures(C::default, (), r.transport()),
    {
        JikanClient::new(String::from_str(DEFAULT_API_URL), C::default())
    }
}

impl<C: Transport> JikanClient<C> {
    /// Whether `reply` is what the transport may give when it is asked for `path`: for
    /// the request that this client makes for `path`, sent to the address of `path`.
    pub open spec fn replies(&self, path: Seq<char>, reply: Result<Response, HttpError>) -> bool {
        match self.planned(path) {
            Some(request) => self.transport().answers(self.address_of(path), request, reply),
            None => true,
        }
    }

    /// Makes the request for `path` and sends it.
    ///
    /// A client that cannot reach `path` sends nothing. Otherwise the transport is
    /// asked, and the result is what [`JikanClient::requested`] makes of its reply,
    /// whatever that reply is.
    pub fn try_request(&self, path: String) -> (r: JikanResult<Response>)
        ensures
            exists|reply: Result<Response, HttpError>|
                #[trigger] self.replies(path@, reply) && r == self.requested(path@, reply),
    {
        let request = match self.request(path) {
            Ok(request) => request,
            Err(e) => {
                let ghost unasked: Result<Response, HttpError> = Err(HttpError::InvalidUrl);
                assert(self.replies(path@, unasked));
                return Err(e);
            },
        };
        let url = self.address(request.path.as_str());
        let reply = self.http_client.send(url.as_str(), &request);
        assert(self.replies(path@, reply));
        match reply {
            Ok(res) => Ok(res),
            Err(e) => Err(JikanError::Http(e)),
        }
    }

    /// Fetches the anime with the number `id`.
    ///
    /// The transport is asked for the path of that anime, and the result is what
    /// [`JikanClient::fetched`] makes of its reply, whatever that reply is.
    pub fn get_anime_by_id(&self, id: u32) -> (r: JikanResult<Anime>)
        ensures
            exists|reply: Result<Response, HttpError>|
                #[trigger] self.replies(anime_path_of(id), reply) && outcome_of(r)
                    == self.fetched(id, reply),
    {
        let sent = self.try_request(anime_path(id));
        let ghost reply = choose|reply: Result<Response, HttpError>|
            #[trigger] self.replies(anime_path_of(id), reply) && sent == self.requested(
                anime_path_of(id),
                reply,
            );
        let r = match sent {
            Ok(res) => anime_reply(Ok(res)),
            Err(e) => Err(e),
        };
        assert(self.replies(anime_path_of(id), reply) && outcome_of(r) == self.fetched(
            id,
            reply,
        ));
        r
    }
}

} // verus!
