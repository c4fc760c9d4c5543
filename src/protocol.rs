//! The rules of one login attempt that do not depend on where it stands:
//! the error texts, how a callback's query is judged, the token request's
//! form, the backend's endpoint, and how an upstream reply is read.

use vstd::prelude::*;
use vstd::string::*;
use crate::text::{pairs_view, joined};

verus! {

/// The loopback port the listener binds; the provider's registered redirect
/// URI names it.
pub const LISTEN_PORT: u16 = 1409;

/// How long the final page is given to render before the attempt returns.
pub const GRACE_MILLIS: u64 = 500;

/// Why an attempt ended without a session.
#[derive(Clone, Debug, PartialEq, Eq)]
pub enum LoginError {
    /// The listener could not bind its port.
    Startup(String),
    /// A callback's request target could not be read as a URL.
    BadTarget(String),
    /// The provider redirected with an `error` parameter.
    Provider(String),
    MissingCode,
    MissingState,
    /// The callback's `state` differs from the one the attempt expects.
    InvalidState,
    TokenTransport(String),
    TokenStatus(String),
    TokenParse(String),
    BackendTransport(String),
    BackendStatus(String),
    BackendParse(String),
    /// The stream of requests ended before the attempt finished.
    StreamEnded,
}

/// The text reported to the caller for each error.
pub open spec fn error_text(e: LoginError) -> Seq<char> {
    match e {
        LoginError::Startup(d) => "Failed to start server: "@ + d@,
        LoginError::BadTarget(d) => "Failed to parse URL: "@ + d@,
        LoginError::Provider(d) => "OAuth error: "@ + d@,
        LoginError::MissingCode => "Missing authorization code"@,
        LoginError::MissingState => "Missing state parameter"@,
        LoginError::InvalidState => "Invalid state parameter"@,
        LoginError::TokenTransport(d) => "Token request failed: "@ + d@,
        LoginError::TokenStatus(d) => "Token exchange failed: "@ + d@,
        LoginError::TokenParse(d) => "Failed to parse token response: "@ + d@,
        LoginError::BackendTransport(d) => "Backend request failed: "@ + d@,
        LoginError::BackendStatus(d) => "Backend authentication failed: "@ + d@,
        LoginError::BackendParse(d) => "Failed to parse backend response: "@ + d@,
        LoginError::StreamEnded => "Server stopped without receiving callback"@,
    }
}

impl LoginError {
    /// The text reported to the caller.
    pub fn message(&self) -> (r: String)
        ensures
            r@ == error_text(*self),
    {
        match self {
            LoginError::Startup(d) => joined("Failed to start server: ", d.as_str()),
            LoginError::BadTarget(d) => joined("Failed to parse URL: ", d.as_str()),
            LoginError::Provider(d) => joined("OAuth error: ", d.as_str()),
            LoginError::MissingCode => String::from_str("Missing authorization code"),
            LoginError::MissingState => String::from_str("Missing state parameter"),
            LoginError::InvalidState => String::from_str("Invalid state parameter"),
            LoginError::TokenTransport(d) => joined("Token request failed: ", d.as_str()),
            LoginError::TokenStatus(d) => joined("Token exchange failed: ", d.as_str()),
            LoginError::TokenParse(d) => joined("Failed to parse token response: ", d.as_str()),
            LoginError::BackendTransport(d) => joined("Backend request failed: ", d.as_str()),
            LoginError::BackendStatus(d) => joined("Backend authentication failed: ", d.as_str()),
            LoginError::BackendParse(d) => joined("Failed to parse backend response: ", d.as_str()),
            LoginError::StreamEnded => String::from_str("Server stopped without receiving callback"),
        }
    }
}

/// The value of `key` in a decoded query: where a name repeats, its last
/// value counts.
pub open spec fn lookup(q: Seq<(Seq<char>, Seq<char>)>, key: Seq<char>) -> Option<Seq<char>>
    decreases q.len(),
{
    if q.len() == 0 {
        None
    } else if q.last().0 == key {
        Some(q.last().1)
    } else {
        lookup(q.drop_last(), key)
    }
}

/// The value of `key` among the query's pairs, the last one where it repeats.
pub fn query_value(pairs: &Vec<(String, String)>, key: &str) -> (r: Option<String>)
    ensures
        match r {
            Some(s) => lookup(pairs_view(pairs@), key@) == Some(s@),
            None => lookup(pairs_view(pairs@), key@) is None,
        },
{
    let k = String::from_str(key);
    let mut i: usize = pairs.len();
    assert(pairs@.subrange(0, i as int) =~= pairs@);
    while i > 0
        invariant
            i <= pairs@.len(),
            k@ == key@,
            lookup(pairs_view(pairs@), key@) == lookup(pairs_view(pairs@.subrange(0, i as int)), key@),
        decreases i,
    {
        let ghost q = pairs_view(pairs@.subrange(0, i as int));
        assert(q.drop_last() =~= pairs_view(pairs@.subrange(0, i - 1)));
        assert(q.last() == (pairs@[i - 1].0@, pairs@[i - 1].1@));
        if pairs[i - 1].0 == k {
            return Some(pairs[i - 1].1.clone());
        }
        i = i - 1;
    }
    assert(pairs_view(pairs@.subrange(0, 0)).len() == 0);
    None
}

/// How a callback's query is judged.
#[derive(Clone, Debug, PartialEq, Eq)]
pub enum Verdict {
    /// The provider reported this error.
    Provider(String),
    MissingCode,
    MissingState,
    InvalidState,
    /// The state matches; this is the authorization code.
    Accepted(String),
}

/// The verdict on a decoded callback query, checked in this order: a
/// provider error, a missing code, a missing state, a state that differs
/// from the expected one.
pub open spec fn verdict_holds(v: Verdict, q: Seq<(Seq<char>, Seq<char>)>, expected: Seq<char>) -> bool {
    match lookup(q, "error"@) {
        Some(e) => v matches Verdict::Provider(x) && x@ == e,
        None => match lookup(q, "code"@) {
            None => v is MissingCode,
            Some(c) => match lookup(q, "state"@) {
                None => v is MissingState,
                Some(s) => if s == expected {
                    v matches Verdict::Accepted(x) && x@ == c
                } else {
                    v is InvalidState
                },
            },
        },
    }
}

/// Whether a decoded callback query lets the attempt go on to the token
/// exchange.
pub open spec fn query_accepted(q: Seq<(Seq<char>, Seq<char>)>, expected: Seq<char>) -> bool {
    &&& lookup(q, "error"@) is None
    &&& lookup(q, "code"@) is Some
    &&& lookup(q, "state"@) == Some(expected)
}

/// Judges a callback's decoded query against the state the attempt expects.
pub fn classify_callback(pairs: &Vec<(String, String)>, expected_state: &String) -> (v: Verdict)
    ensures
        verdict_holds(v, pairs_view(pairs@), expected_state@),
        (v is Accepted) == query_accepted(pairs_view(pairs@), expected_state@),
{
    match query_value(pairs, "error") {
        Some(e) => Verdict::Provider(e),
        None => match query_value(pairs, "code") {
            None => Verdict::MissingCode,
            Some(c) => match query_value(pairs, "state") {
                None => Verdict::MissingState,
                Some(s) => if s == *expected_state {
                    Verdict::Accepted(c)
                } else {
                    Verdict::InvalidState
                },
            },
        },
    }
}

/// The redirect URI registered with the provider: the listener's callback.
pub open spec fn redirect_uri() -> Seq<char> {
    "http://localhost:1409/oauth/callback"@
}

/// The form fields of the authorization-code exchange, in order.
pub open spec fn token_form_spec(
    code: Seq<char>,
    verifier: Seq<char>,
    client_id: Seq<char>,
    client_secret: Seq<char>,
) -> Seq<(Seq<char>, Seq<char>)> {
    seq![
        ("client_id"@, client_id),
        ("client_secret"@, client_secret),
        ("code"@, code),
        ("code_verifier"@, verifier),
        ("grant_type"@, "authorization_code"@),
        ("redirect_uri"@, redirect_uri()),
    ]
}

fn field(name: &str, value: &str) -> (r: (String, String))
    ensures
        r.0@ == name@,
        r.1@ == value@,
{
    (String::from_str(name), String::from_str(value))
}

/// The form posted to the provider's token endpoint.
pub fn token_form(code: &str, code_verifier: &str, client_id: &str, client_secret: &str) -> (r: Vec<(String, String)>)
    ensures
        pairs_view(r@) == token_form_spec(code@, code_verifier@, client_id@, client_secret@),
{
    let mut v: Vec<(String, String)> = Vec::new();
    v.push(field("client_id", client_id));
    v.push(field("client_secret", client_secret));
    v.push(field("code", code));
    v.push(field("code_verifier", code_verifier));
    v.push(field("grant_type", "authorization_code"));
    v.push(field("redirect_uri", "http://localhost:1409/oauth/callback"));
    assert(pairs_view(v@) =~= token_form_spec(code@, code_verifier@, client_id@, client_secret@));
    v
}

/// The backend's endpoint that trades a provider token for a session.
pub open spec fn backend_endpoint_spec(backend_url: Seq<char>) -> Seq<char> {
    backend_url + "/api/auth/oauth"@
}

/// The backend's endpoint that trades a provider token for a session.
pub fn backend_endpoint(backend_url: &str) -> (r: String)
    ensures
        r@ == backend_endpoint_spec(backend_url@),
{
    joined(backend_url, "/api/auth/oauth")
}

} // verus!
