//! A typed client for the Jikan API, the read-only catalogue of anime.
//!
//! The library turns "fetch the anime with this number" into a [`Request`], hands
//! it to a [`Transport`], and reads the answer: a payload where the service sent
//! one, and otherwise the reason, as a [`JikanError`]. It performs one request per
//! call and keeps nothing between calls.
//!
//! Nothing here touches the network. A transport is whatever implements
//! [`Transport`]; a caller that drives its own I/O can ask a client for the request
//! ([`JikanClient::anime_request`]) and hand back what came of it ([`anime_reply`]).

pub mod client;
pub mod codec;
pub mod error;
pub mod json;
pub mod models;
pub mod request;
pub mod response;
pub mod text;
pub mod transport;
pub mod uri;

pub use crate::client::{
    anime_path, anime_path_of, anime_reply, JikanClient, ANIME_PATH, DEFAULT_API_URL,
};
pub use crate::error::{outcome_of, HttpError, JikanError, JikanResult, JsonError, Outcome};
pub use crate::response::{
    answer, classify, conclude, concluded, is_success, parse_json_response, unwrapped,
};
pub use crate::transport::{same_reply, Canned, Response, Transport};
