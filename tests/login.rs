use oauth_loopback::listener::{Action, Attempt, Event, Page, Phase};
use oauth_loopback::protocol::{
    backend_endpoint, classify_callback, query_value, token_form, LoginError, Verdict,
};
use oauth_loopback::target::{callback_query, names_callback, names_root};
use oauth_loopback::text::{contains_text, joined};
use oauth_loopback::upstream::{read_reply, HttpReply, TokenResponse, Upstream};
use serde_json::Value;

fn attempt(expected: &str) -> Attempt<Value> {
    Attempt::new(
        "verifier".to_string(),
        expected.to_string(),
        "https://api.example.com".to_string(),
        "client".to_string(),
        "shh".to_string(),
    )
}

fn request(t: &str) -> Event<Value> {
    Event::Request(t.to_string())
}

fn token_reply(token: &str) -> Event<Value> {
    Event::TokenReply(Ok(HttpReply {
        status: 200,
        body: String::new(),
        parsed: Ok(TokenResponse {
            access_token: token.to_string(),
            token_type: "Bearer".to_string(),
            expires_in: 3600,
        }),
    }))
}

fn backend_reply(body: &str) -> Event<Value> {
    Event::BackendReply(Ok(HttpReply {
        status: 200,
        body: body.to_string(),
        parsed: Ok(serde_json::from_str(body).unwrap()),
    }))
}

fn pairs(items: &[(&str, &str)]) -> Vec<(String, String)> {
    items.iter().map(|(k, v)| (k.to_string(), v.to_string())).collect()
}

fn fail_error(a: Action<Value>) -> LoginError {
    match a {
        Action::RespondAndFail(Page::Failure(m), e) => {
            assert_eq!(m, e.message());
            e
        }
        Action::Fail(e) => e,
        other => panic!("expected a failure, got {:?}", other),
    }
}

#[test]
fn example_code_and_state_returns_session() {
    let mut at = attempt("xyz");
    let a = at.step(request("/oauth/callback?code=ABC123&state=xyz"));
    match a {
        Action::RespondAndExchange(Page::Interim, form) => {
            assert_eq!(form, token_form("ABC123", "verifier", "client", "shh"));
        }
        other => panic!("unexpected {:?}", other),
    }
    assert_eq!(*at.phase(), Phase::ExchangingToken);
    let a = at.step(token_reply("tok1"));
    assert_eq!(
        a,
        Action::Authenticate("https://api.example.com/api/auth/oauth".to_string(), "tok1".to_string())
    );
    assert_eq!(*at.phase(), Phase::AuthenticatingBackend);
    assert_eq!(at.step(backend_reply(r#"{"session":"s1"}"#)), Action::Focus);
    let expected: Value = serde_json::from_str(r#"{"session":"s1"}"#).unwrap();
    assert_eq!(at.step(request("/")), Action::RespondAndSucceed(Page::Success, expected));
    assert_eq!(*at.phase(), Phase::Done);
}

#[test]
fn provider_error_reports_oauth_error() {
    let mut at = attempt("xyz");
    let e = fail_error(at.step(request("/oauth/callback?error=access_denied")));
    assert_eq!(e.message(), "OAuth error: access_denied");
    assert_eq!(*at.phase(), Phase::Failed);
}

#[test]
fn provider_error_wins_over_code_and_state() {
    let mut at = attempt("xyz");
    let e = fail_error(at.step(request("/oauth/callback?code=c&state=xyz&error=denied")));
    assert_eq!(e, LoginError::Provider("denied".to_string()));
    assert_eq!(at.step(token_reply("t")), Action::Nothing);
}

#[test]
fn state_mismatch_is_refused() {
    let mut at = attempt("xyz");
    let e = fail_error(at.step(request("/oauth/callback?code=c&state=XYZ")));
    assert_eq!(e, LoginError::InvalidState);
    assert_eq!(e.message(), "Invalid state parameter");
    assert_eq!(at.step(request("/oauth/callback?code=c&state=xyz")), Action::Nothing);
}

#[test]
fn missing_code_checked_before_state() {
    let mut at = attempt("xyz");
    let e = fail_error(at.step(request("/oauth/callback?state=wrong")));
    assert_eq!(e, LoginError::MissingCode);
    assert_eq!(e.message(), "Missing authorization code");
}

#[test]
fn missing_state_checked_before_equality() {
    let mut at = attempt("xyz");
    let e = fail_error(at.step(request("/oauth/callback?code=c")));
    assert_eq!(e, LoginError::MissingState);
    assert_eq!(e.message(), "Missing state parameter");
}

#[test]
fn stray_requests_keep_waiting() {
    let mut at = attempt("xyz");
    assert_eq!(at.step(request("/favicon.ico")), Action::Respond(Page::Ack));
    assert_eq!(at.step(request("/robots.txt")), Action::Respond(Page::Ack));
    assert_eq!(*at.phase(), Phase::AwaitingCallback);
    assert!(matches!(
        at.step(request("/oauth/callback?code=c&state=xyz")),
        Action::RespondAndExchange(Page::Interim, _)
    ));
}

#[test]
fn early_root_ping_waits() {
    let mut at = attempt("xyz");
    assert_eq!(at.step(request("/")), Action::Respond(Page::Ack));
    assert_eq!(at.step(request("/?")), Action::Respond(Page::Ack));
    assert_eq!(*at.phase(), Phase::AwaitingCallback);
}

#[test]
fn stream_end_fails_once() {
    let mut at = attempt("xyz");
    assert_eq!(at.step(Event::StreamEnded), Action::Fail(LoginError::StreamEnded));
    assert_eq!(at.step(Event::StreamEnded), Action::Nothing);
    assert_eq!(LoginError::StreamEnded.message(), "Server stopped without receiving callback");
}

#[test]
fn stream_end_after_session_still_fails() {
    let mut at = attempt("s");
    at.step(request("/oauth/callback?code=c&state=s"));
    at.step(token_reply("t"));
    at.step(backend_reply("{}"));
    assert_eq!(at.step(Event::StreamEnded), Action::Fail(LoginError::StreamEnded));
}

#[test]
fn repeated_ping_delivers_once() {
    let mut at = attempt("s");
    at.step(request("/oauth/callback?code=c&state=s"));
    at.step(token_reply("t"));
    assert_eq!(at.step(backend_reply(r#"{"a":1}"#)), Action::Focus);
    assert_eq!(at.step(request("/favicon.ico")), Action::Respond(Page::Ack));
    assert!(matches!(at.step(request("/?")), Action::RespondAndSucceed(Page::Success, _)));
    assert_eq!(at.step(request("/")), Action::Nothing);
    assert_eq!(at.step(request("/")), Action::Nothing);
}

#[test]
fn repeated_callback_after_session_is_ignored() {
    let mut at = attempt("s");
    at.step(request("/oauth/callback?code=c&state=s"));
    at.step(token_reply("t"));
    at.step(backend_reply("{}"));
    assert_eq!(at.step(request("/oauth/callback?code=d&state=s")), Action::Respond(Page::Ack));
}

#[test]
fn token_failures_are_reported() {
    let mut at = attempt("s");
    at.step(request("/oauth/callback?code=c&state=s"));
    let a = at.step(Event::TokenReply(Ok(HttpReply {
        status: 400,
        body: "invalid_grant".to_string(),
        parsed: Err("x".to_string()),
    })));
    let e = fail_error(a);
    assert_eq!(e.message(), "Token exchange failed: invalid_grant");
    assert_eq!(*at.phase(), Phase::Failed);
}

#[test]
fn backend_failures_are_reported() {
    let mut at = attempt("s");
    at.step(request("/oauth/callback?code=c&state=s"));
    at.step(token_reply("t"));
    let e = fail_error(at.step(Event::BackendReply(Err("refused".to_string()))));
    assert_eq!(e.message(), "Backend request failed: refused");
}

#[test]
fn read_reply_errors_in_order() {
    let r: Result<u8, LoginError> = read_reply(Err("down".to_string()), Upstream::Provider);
    assert_eq!(r, Err(LoginError::TokenTransport("down".to_string())));
    let r = read_reply(
        Ok(HttpReply { status: 500, body: "oops".to_string(), parsed: Ok(1u8) }),
        Upstream::Backend,
    );
    assert_eq!(r, Err(LoginError::BackendStatus("oops".to_string())));
    let r: Result<u8, LoginError> = read_reply(
        Ok(HttpReply { status: 299, body: String::new(), parsed: Err("eof".to_string()) }),
        Upstream::Provider,
    );
    assert_eq!(r.unwrap_err().message(), "Failed to parse token response: eof");
    let r = read_reply(
        Ok(HttpReply { status: 200, body: String::new(), parsed: Ok(7u8) }),
        Upstream::Backend,
    );
    assert_eq!(r, Ok(7));
    let r: Result<u8, LoginError> = read_reply(
        Ok(HttpReply { status: 300, body: "moved".to_string(), parsed: Ok(1u8) }),
        Upstream::Provider,
    );
    assert_eq!(r, Err(LoginError::TokenStatus("moved".to_string())));
}

#[test]
fn error_messages() {
    assert_eq!(LoginError::Startup("busy".to_string()).message(), "Failed to start server: busy");
    assert_eq!(LoginError::BadTarget("bad".to_string()).message(), "Failed to parse URL: bad");
    assert_eq!(
        LoginError::BackendStatus("no".to_string()).message(),
        "Backend authentication failed: no"
    );
    assert_eq!(
        LoginError::BackendParse("eof".to_string()).message(),
        "Failed to parse backend response: eof"
    );
}

#[test]
fn query_decoding_through_url_parser() {
    let q = callback_query("/oauth/callback?code=a%20b&state=x+y").unwrap();
    assert_eq!(q, pairs(&[("code", "a b"), ("state", "x y")]));
    assert!(callback_query("http://evil/oauth/callback?code=c").is_err());
}

#[test]
fn unparsable_callback_target_fails() {
    let mut at = attempt("s");
    let e = fail_error(at.step(request("http://evil/oauth/callback?code=c&state=s")));
    assert!(matches!(e, LoginError::BadTarget(_)));
    assert!(e.message().starts_with("Failed to parse URL: "));
}

#[test]
fn last_repeated_parameter_counts() {
    let q = pairs(&[("state", "a"), ("code", "c"), ("state", "b")]);
    assert_eq!(query_value(&q, "state"), Some("b".to_string()));
    assert_eq!(query_value(&q, "error"), None);
    assert_eq!(classify_callback(&q, &"b".to_string()), Verdict::Accepted("c".to_string()));
    assert_eq!(classify_callback(&q, &"a".to_string()), Verdict::InvalidState);
}

#[test]
fn token_form_fields() {
    let f = token_form("code1", "ver", "id", "sec");
    assert_eq!(
        f,
        pairs(&[
            ("client_id", "id"),
            ("client_secret", "sec"),
            ("code", "code1"),
            ("code_verifier", "ver"),
            ("grant_type", "authorization_code"),
            ("redirect_uri", "http://localhost:1409/oauth/callback"),
        ])
    );
}

#[test]
fn backend_endpoint_path() {
    assert_eq!(backend_endpoint("http://b:8080"), "http://b:8080/api/auth/oauth");
}

#[test]
fn route_names() {
    assert!(names_callback("/oauth/callback?x=1"));
    assert!(!names_callback("/oauth/call"));
    assert!(names_root(&"/".to_string()));
    assert!(names_root(&"/?".to_string()));
    assert!(!names_root(&"/?a=1".to_string()));
    assert!(contains_text("abcabd", "abd"));
    assert!(!contains_text("ab", "abc"));
    assert!(contains_text("", ""));
    assert_eq!(joined("ab", "cd"), "abcd");
}
