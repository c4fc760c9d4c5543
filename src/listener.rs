//! One login attempt as a state machine. The caller owns the sockets and
//! the outbound calls: it hands each request target, upstream reply or the
//! end of the request stream to [`Attempt::step`], and carries out the
//! [`Action`] that comes back.

use vstd::prelude::*;
use crate::text::pairs_view;
use crate::protocol::{
    LoginError, Verdict, error_text, lookup, query_accepted, classify_callback, token_form,
    token_form_spec, backend_endpoint, backend_endpoint_spec,
};
use crate::target::{
    is_callback_target, is_root_target, target_query, names_callback, names_root, callback_query,
};
use crate::upstream::{TokenResponse, HttpReply, Upstream, reply_good, reply_error, read_reply};

verus! {

/// Where an attempt stands.
#[derive(Debug, PartialEq, Eq)]
pub enum Phase<P> {
    AwaitingCallback,
    ExchangingToken,
    AuthenticatingBackend,
    /// The session is held until the browser's final ping.
    AwaitingFinalPing(P),
    Done,
    Failed,
}

/// What happened since the last step.
#[derive(Debug, PartialEq, Eq)]
pub enum Event<P> {
    /// A browser request arrived, with this target (path and query).
    Request(String),
    /// The provider's token endpoint answered, or the transport failed.
    TokenReply(Result<HttpReply<TokenResponse>, String>),
    /// The backend answered, or the transport failed.
    BackendReply(Result<HttpReply<P>, String>),
    /// No further request will arrive.
    StreamEnded,
}

/// A page served to the browser.
#[derive(Clone, Debug, PartialEq, Eq)]
pub enum Page {
    /// "Authenticating…", sending the browser on to the root path.
    Interim,
    /// The login is complete.
    Success,
    /// A plain answer to a request that plays no part in the login.
    Ack,
    /// The login failed, with this message.
    Failure(String),
}

/// What the caller does next.
#[derive(Debug, PartialEq, Eq)]
pub enum Action<P> {
    /// Answer the request with the page, then wait for the next request.
    Respond(Page),
    /// Answer the request with the page, then post this form to the
    /// provider's token endpoint.
    RespondAndExchange(Page, Vec<(String, String)>),
    /// Post the access token (second) to the backend endpoint (first).
    Authenticate(String, String),
    /// The session is stored: bring the main window forward, then wait for
    /// the next request.
    Focus,
    /// Answer the request with the page; the attempt ends with the error.
    RespondAndFail(Page, LoginError),
    /// The attempt ends with the error.
    Fail(LoginError),
    /// Answer the request with the page, let it render, and return the
    /// session.
    RespondAndSucceed(Page, P),
    /// The event plays no part in the attempt.
    Nothing,
}

/// One login attempt and the values it was started with.
pub struct Attempt<P> {
    pub code_verifier: String,
    pub expected_state: String,
    pub backend_url: String,
    pub client_id: String,
    pub client_secret: String,
    pub phase: Phase<P>,
}

/// A phase after which nothing more happens.
pub open spec fn is_terminal<P>(ph: Phase<P>) -> bool {
    ph is Done || ph is Failed
}

/// A request target that carries a callback the attempt accepts.
pub open spec fn request_accepted(t: Seq<char>, expected: Seq<char>) -> bool {
    target_query(t) matches Some(q) && query_accepted(q, expected)
}

/// The phase that follows `ph` on event `e`.
pub open spec fn next_phase<P>(ph: Phase<P>, e: Event<P>, expected: Seq<char>) -> Phase<P> {
    match ph {
        Phase::AwaitingCallback => match e {
            Event::Request(t) => if !is_callback_target(t@) {
                Phase::AwaitingCallback
            } else if request_accepted(t@, expected) {
                Phase::ExchangingToken
            } else {
                Phase::Failed
            },
            Event::StreamEnded => Phase::Failed,
            _ => ph,
        },
        Phase::ExchangingToken => match e {
            Event::TokenReply(r) => if reply_good(r) {
                Phase::AuthenticatingBackend
            } else {
                Phase::Failed
            },
            _ => ph,
        },
        Phase::AuthenticatingBackend => match e {
            Event::BackendReply(r) => if reply_good(r) {
                Phase::AwaitingFinalPing(r->Ok_0.parsed->Ok_0)
            } else {
                Phase::Failed
            },
            _ => ph,
        },
        Phase::AwaitingFinalPing(p) => match e {
            Event::Request(t) => if is_root_target(t@) {
                Phase::Done
            } else {
                ph
            },
            Event::StreamEnded => Phase::Failed,
            _ => ph,
        },
        _ => ph,
    }
}

/// The failure page that goes with an error.
pub open spec fn failure_page(pg: Page, err: LoginError) -> bool {
    pg matches Page::Failure(m) && m@ == error_text(err)
}

/// The error for a callback query that is not accepted, in the order the
/// checks are made.
pub open spec fn refusal(err: LoginError, q: Seq<(Seq<char>, Seq<char>)>) -> bool {
    match lookup(q, "error"@) {
        Some(e) => err matches LoginError::Provider(x) && x@ == e,
        None => match lookup(q, "code"@) {
            None => err is MissingCode,
            Some(_) => match lookup(q, "state"@) {
                None => err is MissingState,
                Some(_) => err is InvalidState,
            },
        },
    }
}

/// The action that an attempt in state `at` takes on event `e`.
pub open spec fn action_holds<P>(a: Action<P>, at: Attempt<P>, e: Event<P>) -> bool {
    match at.phase {
        Phase::AwaitingCallback => match e {
            Event::Request(t) => if !is_callback_target(t@) {
                a == Action::<P>::Respond(Page::Ack)
            } else {
                match target_query(t@) {
                    None => a matches Action::RespondAndFail(pg, err) && err is BadTarget
                        && failure_page(pg, err),
                    Some(q) => if query_accepted(q, at.expected_state@) {
                        a matches Action::RespondAndExchange(pg, form) && pg == Page::Interim
                            && pairs_view(form@) == token_form_spec(
                            lookup(q, "code"@)->Some_0,
                            at.code_verifier@,
                            at.client_id@,
                            at.client_secret@,
                        )
                    } else {
                        a matches Action::RespondAndFail(pg, err) && refusal(err, q)
                            && failure_page(pg, err)
                    },
                }
            },
            Event::StreamEnded => a == Action::<P>::Fail(LoginError::StreamEnded),
            _ => a is Nothing,
        },
        Phase::ExchangingToken => match e {
            Event::TokenReply(r) => if reply_good(r) {
                a matches Action::Authenticate(endpoint, token)
                    && endpoint@ == backend_endpoint_spec(at.backend_url@)
                    && token == r->Ok_0.parsed->Ok_0.access_token
            } else {
                a == Action::<P>::Fail(reply_error(r, Upstream::Provider))
            },
            Event::Request(_) => a == Action::<P>::Respond(Page::Ack),
            _ => a is Nothing,
        },
        Phase::AuthenticatingBackend => match e {
            Event::BackendReply(r) => if reply_good(r) {
                a is Focus
            } else {
                a == Action::<P>::Fail(reply_error(r, Upstream::Backend))
            },
            Event::Request(_) => a == Action::<P>::Respond(Page::Ack),
            _ => a is Nothing,
        },
        Phase::AwaitingFinalPing(p) => match e {
            Event::Request(t) => if is_root_target(t@) {
                a == Action::RespondAndSucceed(Page::Success, p)
            } else {
                a == Action::<P>::Respond(Page::Ack)
            },
            Event::StreamEnded => a == Action::<P>::Fail(LoginError::StreamEnded),
            _ => a is Nothing,
        },
        _ => a is Nothing,
    }
}

impl<P> Attempt<P> {
    /// A new attempt, awaiting the provider's callback.
    pub fn new(
        code_verifier: String,
        expected_state: String,
        backend_url: String,
        client_id: String,
        client_secret: String,
    ) -> (r: Self)
        ensures
            r.code_verifier == code_verifier,
            r.expected_state == expected_state,
            r.backend_url == backend_url,
            r.client_id == client_id,
            r.client_secret == client_secret,
            r.phase is AwaitingCallback,
    {
        Attempt {
            code_verifier,
            expected_state,
            backend_url,
            client_id,
            client_secret,
            phase: Phase::AwaitingCallback,
        }
    }

    /// Where the attempt stands.
    pub fn phase(&self) -> (r: &Phase<P>)
        ensures
            *r == self.phase,
    {
        &self.phase
    }

    /// Ends the attempt with `err`, after a page that reports it.
    fn refuse(&mut self, err: LoginError) -> (a: Action<P>)
        ensures
            final(self).phase is Failed,
            final(self).code_verifier == old(self).code_verifier,
            final(self).expected_state == old(self).expected_state,
            final(self).backend_url == old(self).backend_url,
            final(self).client_id == old(self).client_id,
            final(self).client_secret == old(self).client_secret,
            a matches Action::RespondAndFail(pg, e) && e == err && failure_page(pg, err),
    {
        self.phase = Phase::Failed;
        let m = err.message();
        Action::RespondAndFail(Page::Failure(m), err)
    }

    /// Takes one event: moves to the next phase and says what to do.
    pub fn step(&mut self, event: Event<P>) -> (a: Action<P>)
        ensures
            final(self).phase == next_phase(old(self).phase, event, old(self).expected_state@),
            final(self).code_verifier == old(self).code_verifier,
            final(self).expected_state == old(self).expected_state,
            final(self).backend_url == old(self).backend_url,
            final(self).client_id == old(self).client_id,
            final(self).client_secret == old(self).client_secret,
            action_holds(a, *old(self), event),
    {
        let mut phase = Phase::Done;
        std::mem::swap(&mut phase, &mut self.phase);
        match phase {
            Phase::AwaitingCallback => match event {
                Event::Request(t) => {
                    if !names_callback(t.as_str()) {
                        self.phase = Phase::AwaitingCallback;
                        return Action::Respond(Page::Ack);
                    }
                    match callback_query(t.as_str()) {
                        Err(d) => self.refuse(LoginError::BadTarget(d)),
                        Ok(pairs) => match classify_callback(&pairs, &self.expected_state) {
                            Verdict::Accepted(code) => {
                                self.phase = Phase::ExchangingToken;
                                let form = token_form(
                                    code.as_str(),
                                    self.code_verifier.as_str(),
                                    self.client_id.as_str(),
                                    self.client_secret.as_str(),
                                );
                                Action::RespondAndExchange(Page::Interim, form)
                            },
                            Verdict::Provider(e) => self.refuse(LoginError::Provider(e)),
                            Verdict::MissingCode => self.refuse(LoginError::MissingCode),
                            Verdict::MissingState => self.refuse(LoginError::MissingState),
                            Verdict::InvalidState => self.refuse(LoginError::InvalidState),
                        },
                    }
                },
                Event::StreamEnded => {
                    self.phase = Phase::Failed;
                    Action::Fail(LoginError::StreamEnded)
                },
                _ => {
                    self.phase = Phase::AwaitingCallback;
                    Action::Nothing
                },
            },
            Phase::ExchangingToken => match event {
                Event::TokenReply(r) => match read_reply(r, Upstream::Provider) {
                    Ok(tok) => {
                        self.phase = Phase::AuthenticatingBackend;
                        Action::Authenticate(backend_endpoint(self.backend_url.as_str()), tok.access_token)
                    },
                    Err(err) => {
                        self.phase = Phase::Failed;
                        Action::Fail(err)
                    },
                },
                Event::Request(_) => {
                    self.phase = Phase::ExchangingToken;
                    Action::Respond(Page::Ack)
                },
                _ => {
                    self.phase = Phase::ExchangingToken;
                    Action::Nothing
                },
            },
            Phase::AuthenticatingBackend => match event {
                Event::BackendReply(r) => match read_reply(r, Upstream::Backend) {
                    Ok(session) => {
                        self.phase = Phase::AwaitingFinalPing(session);
                        Action::Focus
                    },
                    Err(err) => {
                        self.phase = Phase::Failed;
                        Action::Fail(err)
                    },
                },
                Event::Request(_) => {
                    self.phase = Phase::AuthenticatingBackend;
                    Action::Respond(Page::Ack)
                },
                _ => {
                    self.phase = Phase::AuthenticatingBackend;
                    Action::Nothing
                },
            },
            Phase::AwaitingFinalPing(session) => match event {
                Event::Request(t) => {
                    if names_root(&t) {
                        self.phase = Phase::Done;
                        Action::RespondAndSucceed(Page::Success, session)
                    } else {
                        self.phase = Phase::AwaitingFinalPing(session);
                        Action::Respond(Page::Ack)
                    }
                },
                Event::StreamEnded => {
                    self.phase = Phase::Failed;
                    Action::Fail(LoginError::StreamEnded)
                },
                _ => {
                    self.phase = Phase::AwaitingFinalPing(session);
                    Action::Nothing
                },
            },
            Phase::Done => {
                self.phase = Phase::Done;
                Action::Nothing
            },
            Phase::Failed => {
                self.phase = Phase::Failed;
                Action::Nothing
            },
        }
    }
}

} // verus!
