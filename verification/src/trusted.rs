//! Trusted boundary of the crate.
//!
//! Everything the library takes on faith stands in this file: thin
//! wrappers around the URL parser, the JSON string encoder and the id
//! generator, and the one std helper that vstd gives no specification.
//! Each wrapper's contract states no more than the called crate's
//! source shows; the rest of the library is verified against these
//! contracts alone.

use vstd::prelude::*;

verus! {

/// What `url::Url::parse` makes of a string: `None` where the syntax
/// is invalid, otherwise the parsed URL rendered back to a string.
pub uninterp spec fn parsed_url_of(s: Seq<char>) -> Option<Seq<char>>;

/// The JSON string literal (quotes and escapes included) that encodes
/// a string.
pub uninterp spec fn json_string_of(s: Seq<char>) -> Seq<char>;

/// Relies on `str`'s `==` (`PartialEq`): two string slices are equal
/// exactly when their characters are.
#[verifier::external_body]
pub(crate) fn str_eq(a: &str, b: &str) -> (r: bool)
    ensures
        r == (a@ == b@),
{
    a == b
}

/// Relies on `uuid::Uuid::new_v4`: a freshly generated random id in
/// hyphenated textual form.  Nothing can be promised of a random
/// value, so the caller checks freshness against the registry itself.
#[verifier::external_body]
pub(crate) fn new_session_id() -> String {
    uuid::Uuid::new_v4().to_string()
}

/// Relies on `url::Url::parse`: rejects exactly the strings that are
/// not valid URLs, and renders the accepted ones back in normalized
/// form.  The outcome depends on the input alone.
#[verifier::external_body]
pub(crate) fn try_parse_url(url: &str) -> (r: Option<String>)
    ensures
        r is Some <==> parsed_url_of(url@) is Some,
        r matches Some(u) ==> parsed_url_of(url@) == Some(u@),
{
    url::Url::parse(url).ok().map(|u| u.to_string())
}

/// Relies on `serde_json::to_string` on a string slice: the JSON
/// encoding of a string depends on its characters alone, and writing
/// it into a fresh buffer cannot fail.
#[verifier::external_body]
pub(crate) fn json_quote(s: &str) -> (r: String)
    ensures
        r@ == json_string_of(s@),
{
    serde_json::to_string(s).unwrap()
}

} // verus!
