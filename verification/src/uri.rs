//! What counts as an address.
//!
//! The library sends nothing to an address that `hyper` would not take. Which texts
//! `hyper` reads as a URI is for `hyper` to say: this module names its answer,
//! [`reads_as_uri`], and takes it on trust that the answer depends on the text alone.

use vstd::prelude::*;

verus! {

/// Whether `hyper` reads `text` as a URI.
pub uninterp spec fn reads_as_uri(text: Seq<char>) -> bool;

/// `str::parse` at `hyper::Uri`, that is `Uri::from_str`: whether the text is read as
/// a URI. Which texts are is left to `hyper`; the contract only names the answer.
#[verifier::external_body]
pub(crate) fn is_uri(text: &str) -> (r: bool)
    ensures
        r == reads_as_uri(text@),
{
    text.parse::<hyper::Uri>().is_ok()
}

} // verus!
