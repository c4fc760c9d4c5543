//! Reading a browser request's target: which route it names, and the
//! decoded query of a callback.

use vstd::prelude::*;
use crate::text::{pairs_view, text_contains, contains_text, joined};

verus! {

/// The decoded name/value pairs of an absolute URL's query, in order, or
/// `None` where the URL does not parse.
pub uninterp spec fn url_query(url: Seq<char>) -> Option<Seq<(Seq<char>, Seq<char>)>>;

/// Relies on `url::Url::parse`, which accepts or refuses the URL, and on
/// `url::Url::query_pairs`, which decodes its query into pairs in order;
/// on a refusal, the `url::ParseError`'s text.
#[verifier::external_body]
fn decoded_query(url: &str) -> (r: Result<Vec<(String, String)>, String>)
    ensures
        r is Ok <==> url_query(url@) is Some,
        r is Ok ==> url_query(url@) == Some(pairs_view(r->Ok_0@)),
{
    match url::Url::parse(url) {
        Ok(u) => Ok(u.query_pairs().into_owned().collect()),
        Err(e) => Err(e.to_string()),
    }
}

/// The origin a request target is read against.
pub open spec fn listener_origin() -> Seq<char> {
    "http://localhost:1409"@
}

/// A target that names the OAuth callback.
pub open spec fn is_callback_target(t: Seq<char>) -> bool {
    text_contains(t, "/oauth/callback"@)
}

/// The browser's final ping: the root path, with or without an empty query.
pub open spec fn is_root_target(t: Seq<char>) -> bool {
    t == "/"@ || t == "/?"@
}

/// The decoded query of a request target.
pub open spec fn target_query(t: Seq<char>) -> Option<Seq<(Seq<char>, Seq<char>)>> {
    url_query(listener_origin() + t)
}

/// Whether the target names the OAuth callback.
pub fn names_callback(target: &str) -> (r: bool)
    ensures
        r == is_callback_target(target@),
{
    contains_text(target, "/oauth/callback")
}

/// Whether the target is the browser's final ping.
pub fn names_root(target: &String) -> (r: bool)
    ensures
        r == is_root_target(target@),
{
    *target == String::from_str("/") || *target == String::from_str("/?")
}

/// The decoded query of a request target, read against the listener's
/// origin; on failure, the URL parser's message.
pub fn callback_query(target: &str) -> (r: Result<Vec<(String, String)>, String>)
    ensures
        r is Ok <==> target_query(target@) is Some,
        r is Ok ==> target_query(target@) == Some(pairs_view(r->Ok_0@)),
{
    let url = joined("http://localhost:1409", target);
    decoded_query(url.as_str())
}

} // verus!
