//! Requests, as the values that a transport is handed.
//!
//! A [`Request`] says what to ask for; it is made by a [`RequestBuilder`], which
//! wants a path and supplies the rest. Every request names this library to the
//! service in a `User-Agent` header.

use vstd::prelude::*;
use vstd::string::StringExecFns;

verus! {

/// The name under which this library presents itself.
pub const LIBRARY_NAME: &'static str = "jikan-rust";

/// Where this library is at home.
pub const HOMEPAGE: &'static str = "https://jikan.moe";

/// The version of this library.
pub const VERSION: &'static str = "0.1.0";

/// The name of the header that identifies the library.
pub const USER_AGENT: &'static str = "User-Agent";

/// The message of a builder that was given no path.
pub const PATH_REQUIRED: &'static str = "Request path is required";

/// An HTTP method.
#[derive(Debug, Clone, Copy, PartialEq, Eq, Structural)]
pub enum Method {
    Get,
    Head,
    Post,
    Put,
    Delete,
    Connect,
    Options,
    Trace,
    Patch,
}

/// One header of a request.
#[derive(Debug, Clone, PartialEq, Eq)]
pub struct Header {
    pub name: String,
    pub value: String,
}

/// What a [`Header`] holds.
pub struct HeaderView {
    pub name: Seq<char>,
    pub value: Seq<char>,
}

impl DeepView for Header {
    type V = HeaderView;

    open spec fn deep_view(&self) -> HeaderView {
        HeaderView { name: self.name@, value: self.value@ }
    }
}

/// A request: what to ask for, and how.
#[derive(Debug, Clone, PartialEq, Eq)]
pub struct Request {
    pub method: Method,
    /// The path, relative to the base address of the service.
    pub path: String,
    /// The headers in the order in which they are sent; the library's own comes first.
    pub headers: Vec<Header>,
    pub body: Option<Vec<u8>>,
}

/// What a [`Request`] holds.
pub struct RequestView {
    pub method: Method,
    pub path: Seq<char>,
    pub headers: Seq<HeaderView>,
    pub body: Option<Seq<u8>>,
}

impl DeepView for Request {
    type V = RequestView;

    open spec fn deep_view(&self) -> RequestView {
        RequestView {
            method: self.method,
            path: self.path@,
            headers: self.headers.deep_view(),
            body: body_of(self.body),
        }
    }
}

/// The bytes of a body, if there is one.
pub open spec fn body_of(body: Option<Vec<u8>>) -> Option<Seq<u8>> {
    match body {
        Some(bytes) => Some(bytes@),
        None => None,
    }
}

/// What the library says of itself: its name, then its homepage and version in brackets.
pub open spec fn user_agent_text() -> Seq<char> {
    LIBRARY_NAME@ + " ("@ + HOMEPAGE@ + ", "@ + VERSION@ + ")"@
}

/// The header that identifies the library.
pub open spec fn identifying_header() -> HeaderView {
    HeaderView { name: USER_AGENT@, value: user_agent_text() }
}

/// Whether a header has a name.
pub open spec fn is_named(header: HeaderView) -> bool {
    header.name.len() > 0
}

/// The headers among `headers` that have a name, in their order.
pub open spec fn named(headers: Seq<HeaderView>) -> Seq<HeaderView> {
    headers.filter(|header: HeaderView| is_named(header))
}

/// The headers of a request built with the caller's `extra` headers: the identifying
/// header, then the caller's, without those that have no name.
pub open spec fn built_headers(extra: Option<Seq<HeaderView>>) -> Seq<HeaderView> {
    match extra {
        Some(headers) => seq![identifying_header()] + named(headers),
        None => seq![identifying_header()],
    }
}

/// The library's own header comes first in every request that is built, and every
/// header that follows it has a name.
pub proof fn lemma_built_headers(extra: Option<Seq<HeaderView>>)
    ensures
        built_headers(extra).len() >= 1,
        built_headers(extra)[0] == identifying_header(),
        forall|i: int|
            1 <= i < built_headers(extra).len() ==> is_named(#[trigger] built_headers(extra)[i]),
{
    if let Some(headers) = extra {
        let kept = named(headers);
        assert forall|i: int| 1 <= i < built_headers(extra).len() implies is_named(
            #[trigger] built_headers(extra)[i],
        ) by {
            headers.lemma_filter_pred(|header: HeaderView| is_named(header), i - 1);
            assert(built_headers(extra)[i] == kept[i - 1]);
        }
    }
}

/// What the library says of itself.
pub fn user_agent() -> (r: String)
    ensures
        r@ == user_agent_text(),
{
    let mut r = String::from_str(LIBRARY_NAME);
    r.append(" (");
    r.append(HOMEPAGE);
    r.append(", ");
    r.append(VERSION);
    r.append(")");
    r
}

impl Request {
    /// A builder that has been told nothing yet.
    pub fn builder() -> (r: RequestBuilder)
        ensures
            r@ == (RequestBuilderView { path: None, method: None, headers: None, body: None }),
    {
        RequestBuilder { path: None, method: None, headers: None, body: None }
    }
}

/// A request in the making.
#[derive(Debug, Clone, PartialEq, Eq)]
pub struct RequestBuilder {
    path: Option<String>,
    method: Option<Method>,
    headers: Option<Vec<Header>>,
    body: Option<Vec<u8>>,
}

/// What a [`RequestBuilder`] has been told so far.
pub struct RequestBuilderView {
    pub path: Option<Seq<char>>,
    pub method: Option<Method>,
    pub headers: Option<Seq<HeaderView>>,
    pub body: Option<Seq<u8>>,
}

impl View for RequestBuilder {
    type V = RequestBuilderView;

    closed spec fn view(&self) -> RequestBuilderView {
        RequestBuilderView {
            path: self.path.deep_view(),
            method: self.method,
            headers: self.headers.deep_view(),
            body: body_of(self.body),
        }
    }
}

impl Default for RequestBuilder {
    fn default() -> (r: RequestBuilder)
        ensures
            r@ == (RequestBuilderView { path: None, method: None, headers: None, body: None }),
    {
        Request::builder()
    }
}

impl RequestBuilder {
    /// Sets the method.
    pub fn method(self, method: Method) -> (r: RequestBuilder)
        ensures
            r@ == (RequestBuilderView { method: Some(method), ..self@ }),
    {
        let mut r = self;
        r.method = Some(method);
        r
    }

    /// Sets the path.
    pub fn path(self, path: String) -> (r: RequestBuilder)
        ensures
            r@ == (RequestBuilderView { path: Some(path@), ..self@ }),
    {
        let mut r = self;
        r.path = Some(path);
        r
    }

    /// Sets the headers that the request carries besides the library's own.
    pub fn headers(self, headers: Vec<Header>) -> (r: RequestBuilder)
        ensures
            r@ == (RequestBuilderView { headers: Some(headers.deep_view()), ..self@ }),
    {
        let mut r = self;
        r.headers = Some(headers);
        r
    }

    /// Sets the body.
    pub fn body(self, body: Vec<u8>) -> (r: RequestBuilder)
        ensures
            r@ == (RequestBuilderView { body: Some(body@), ..self@ }),
    {
        let mut r = self;
        r.body = Some(body);
        r
    }

    /// The request, where a path was given; the method is `GET` unless another was set,
    /// and the headers are the library's own and then the caller's that have a name.
    pub fn build(self) -> (r: Result<Request, String>)
        ensures
            match r {
                Ok(request) => self@.path is Some && request.deep_view() == (RequestView {
                    method: match self@.method {
                        Some(method) => method,
                        None => Method::Get,
                    },
                    path: self@.path->0,
                    headers: built_headers(self@.headers),
                    body: self@.body,
                }),
                Err(message) => self@.path is None && message@ == PATH_REQUIRED@,
            },
    {
        let path = match self.path {
            Some(path) => path,
            None => return Err(String::from_str(PATH_REQUIRED)),
        };
        let method = match self.method {
            Some(method) => method,
            None => Method::Get,
        };
        let mut headers: Vec<Header> = Vec::new();
        headers.push(Header { name: String::from_str(USER_AGENT), value: user_agent() });
        assert(headers.deep_view() =~= seq![identifying_header()]);
        if let Some(extra) = self.headers {
            let ghost given = extra.deep_view();
            let mut i: usize = 0;
            assert(given.take(0) =~= Seq::<HeaderView>::empty());
            while i < extra.len()
                invariant
                    i <= extra.len(),
                    given == extra.deep_view(),
                    headers.deep_view() == seq![identifying_header()] + named(given.take(i as int)),
                decreases extra.len() - i,
            {
                let header = &extra[i];
                proof {
                    let next = given.take(i + 1);
                    assert(next.drop_last() =~= given.take(i as int));
                    assert(next.last() == header.deep_view());
                    reveal_with_fuel(Seq::filter, 2);
                }
                if !header.name.as_str().is_empty() {
                    let ghost before = headers.deep_view();
                    headers.push(Header { name: header.name.clone(), value: header.value.clone() });
                    assert(headers.deep_view() =~= before.push(header.deep_view()));
                    assert(named(given.take(i + 1)) == named(given.take(i as int)).push(
                        header.deep_view(),
                    ));
                }
                i = i + 1;
            }
            assert(given.take(i as int) =~= given);
        }
        Ok(Request { method, path, headers, body: self.body })
    }
}

} // verus!
