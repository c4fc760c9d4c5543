//! What holds of every run of an attempt: the phases it passes through, and
//! how often it ends, stores a session, delivers one, or asks for a token.

use vstd::prelude::*;
use crate::protocol::{LoginError, lookup};
use crate::target::{is_callback_target, is_root_target, target_query};
use crate::upstream::{TokenResponse, HttpReply, reply_good};
use crate::listener::{
    Phase, Event, Action, Page, Attempt, is_terminal, next_phase, action_holds, request_accepted,
};

verus! {

/// A kind of step that a run may take.
pub enum StepKind {
    /// The attempt ends, with a session or an error.
    Ends,
    /// A session is stored for delivery.
    Stores,
    /// The stored session is delivered.
    Delivers,
    /// The token exchange is started.
    Exchanges,
}

/// Whether taking `e` in phase `ph` is a step of this kind.
pub open spec fn is_step<P>(k: StepKind, ph: Phase<P>, e: Event<P>, expected: Seq<char>) -> bool {
    let n = next_phase(ph, e, expected);
    match k {
        StepKind::Ends => !is_terminal(ph) && is_terminal(n),
        StepKind::Stores => ph is AuthenticatingBackend && n is AwaitingFinalPing,
        StepKind::Delivers => ph is AwaitingFinalPing && n is Done,
        StepKind::Exchanges => ph is AwaitingCallback && n is ExchangingToken,
    }
}

/// The phase after all of `evs`, starting from `ph`.
pub open spec fn run_phase<P>(ph: Phase<P>, evs: Seq<Event<P>>, expected: Seq<char>) -> Phase<P>
    decreases evs.len(),
{
    if evs.len() == 0 {
        ph
    } else {
        run_phase(next_phase(ph, evs[0], expected), evs.drop_first(), expected)
    }
}

/// How many steps of kind `k` a run over `evs` from `ph` takes.
pub open spec fn count_steps<P>(k: StepKind, ph: Phase<P>, evs: Seq<Event<P>>, expected: Seq<char>) -> nat
    decreases evs.len(),
{
    if evs.len() == 0 {
        0
    } else {
        (if is_step(k, ph, evs[0], expected) { 1nat } else { 0nat }) + count_steps(
            k,
            next_phase(ph, evs[0], expected),
            evs.drop_first(),
            expected,
        )
    }
}

/// How far along an attempt is; no step goes back.
pub open spec fn rank<P>(ph: Phase<P>) -> nat {
    match ph {
        Phase::AwaitingCallback => 0,
        Phase::ExchangingToken => 1,
        Phase::AuthenticatingBackend => 2,
        Phase::AwaitingFinalPing(_) => 3,
        _ => 4,
    }
}

/// The kinds of step are the kinds of action: a step ends the attempt
/// exactly when its action is a failure or a delivery, delivers exactly when
/// its action hands the session back, and starts the token exchange exactly
/// when its action does.
pub proof fn lemma_actions_match_steps<P>(a: Action<P>, at: Attempt<P>, e: Event<P>)
    requires
        action_holds(a, at, e),
    ensures
        (a is Fail || a is RespondAndFail || a is RespondAndSucceed)
            == is_step(StepKind::Ends, at.phase, e, at.expected_state@),
        (a is RespondAndSucceed) == is_step(StepKind::Delivers, at.phase, e, at.expected_state@),
        (a is RespondAndExchange) == is_step(StepKind::Exchanges, at.phase, e, at.expected_state@),
        (a is Focus) == is_step(StepKind::Stores, at.phase, e, at.expected_state@),
{
}

proof fn lemma_rank_never_drops<P>(ph: Phase<P>, e: Event<P>, expected: Seq<char>)
    ensures
        rank(next_phase(ph, e, expected)) >= rank(ph),
        is_terminal(ph) ==> next_phase(ph, e, expected) == ph,
{
}

/// Once the attempt has ended, nothing more happens in it.
pub proof fn lemma_ended_stays_ended<P>(k: StepKind, ph: Phase<P>, evs: Seq<Event<P>>, expected: Seq<char>)
    requires
        is_terminal(ph),
    ensures
        run_phase(ph, evs, expected) == ph,
        count_steps(k, ph, evs, expected) == 0,
    decreases evs.len(),
{
    if evs.len() > 0 {
        lemma_rank_never_drops(ph, evs[0], expected);
        lemma_ended_stays_ended(k, ph, evs.drop_first(), expected);
    }
}

proof fn lemma_no_store_after_storing<P>(ph: Phase<P>, evs: Seq<Event<P>>, expected: Seq<char>)
    requires
        rank(ph) >= 3,
    ensures
        count_steps(StepKind::Stores, ph, evs, expected) == 0,
    decreases evs.len(),
{
    if evs.len() > 0 {
        lemma_rank_never_drops(ph, evs[0], expected);
        lemma_no_store_after_storing(next_phase(ph, evs[0], expected), evs.drop_first(), expected);
    }
}

proof fn lemma_deliveries_end<P>(ph: Phase<P>, evs: Seq<Event<P>>, expected: Seq<char>)
    ensures
        count_steps(StepKind::Delivers, ph, evs, expected) <= count_steps(StepKind::Ends, ph, evs, expected),
    decreases evs.len(),
{
    if evs.len() > 0 {
        lemma_deliveries_end(next_phase(ph, evs[0], expected), evs.drop_first(), expected);
    }
}

/// Whatever requests and replies arrive, and however often the browser
/// pings the root path, an attempt ends at most once, stores at most one
/// session and delivers at most one.
pub proof fn lemma_one_outcome<P>(ph: Phase<P>, evs: Seq<Event<P>>, expected: Seq<char>)
    ensures
        count_steps(StepKind::Ends, ph, evs, expected) <= 1,
        count_steps(StepKind::Stores, ph, evs, expected) <= 1,
        count_steps(StepKind::Delivers, ph, evs, expected) <= 1,
    decreases evs.len(),
{
    lemma_deliveries_end(ph, evs, expected);
    if evs.len() > 0 {
        let n = next_phase(ph, evs[0], expected);
        let rest = evs.drop_first();
        lemma_one_outcome(n, rest, expected);
        if is_step(StepKind::Ends, ph, evs[0], expected) {
            lemma_ended_stays_ended(StepKind::Ends, n, rest, expected);
        }
        if is_step(StepKind::Stores, ph, evs[0], expected) {
            lemma_no_store_after_storing(n, rest, expected);
        }
    }
}

/// A request that does not name the callback.
pub open spec fn is_stray<P>(e: Event<P>) -> bool {
    e matches Event::Request(t) && !is_callback_target(t@)
}

/// The root path and its empty-query form do not name the callback.
pub proof fn lemma_root_is_not_callback(t: Seq<char>)
    requires
        is_root_target(t),
    ensures
        !is_callback_target(t),
{
    reveal_strlit("/oauth/callback");
    reveal_strlit("/");
    reveal_strlit("/?");
}

/// Requests that do not name the callback, the root path among them, leave
/// an attempt that awaits its callback waiting: it neither ends, nor stores
/// a session, nor delivers one, and each such request gets a plain answer.
pub proof fn lemma_stray_requests_keep_waiting<P>(evs: Seq<Event<P>>, expected: Seq<char>)
    requires
        forall|i: int| 0 <= i < evs.len() ==> is_stray(#[trigger] evs[i]),
    ensures
        run_phase(Phase::AwaitingCallback, evs, expected) is AwaitingCallback,
        count_steps(StepKind::Ends, Phase::AwaitingCallback, evs, expected) == 0,
        count_steps(StepKind::Stores, Phase::AwaitingCallback, evs, expected) == 0,
        count_steps(StepKind::Delivers, Phase::AwaitingCallback, evs, expected) == 0,
        forall|a: Action<P>, at: Attempt<P>, i: int|
            0 <= i < evs.len() && at.phase is AwaitingCallback && #[trigger] action_holds(a, at, evs[i])
                ==> a == Action::<P>::Respond(Page::Ack),
    decreases evs.len(),
{
    if evs.len() > 0 {
        let rest = evs.drop_first();
        assert forall|i: int| 0 <= i < rest.len() implies is_stray(#[trigger] rest[i]) by {
            assert(rest[i] == evs[i + 1]);
        }
        lemma_stray_requests_keep_waiting(rest, expected);
    }
}

/// A root-path ping before any session is stored answers with a plain page
/// and leaves the attempt waiting for its callback.
pub proof fn lemma_early_ping_waits<P>(a: Action<P>, at: Attempt<P>, t: String)
    requires
        is_root_target(t@),
        at.phase is AwaitingCallback,
        action_holds(a, at, Event::Request(t)),
    ensures
        next_phase(at.phase, Event::Request(t), at.expected_state@) is AwaitingCallback,
        a == Action::<P>::Respond(Page::Ack),
{
    lemma_root_is_not_callback(t@);
}

/// A callback whose state differs from the expected one, with no provider
/// error and with a code, fails the attempt with the invalid-state error,
/// and no run that begins with it ever asks for a token.
pub proof fn lemma_state_mismatch_never_exchanges<P>(
    a: Action<P>,
    at: Attempt<P>,
    t: String,
    q: Seq<(Seq<char>, Seq<char>)>,
    rest: Seq<Event<P>>,
)
    requires
        at.phase is AwaitingCallback,
        is_callback_target(t@),
        target_query(t@) == Some(q),
        lookup(q, "error"@) is None,
        lookup(q, "code"@) is Some,
        lookup(q, "state"@) is Some,
        lookup(q, "state"@) != Some(at.expected_state@),
        action_holds(a, at, Event::Request(t)),
    ensures
        next_phase(at.phase, Event::Request(t), at.expected_state@) is Failed,
        a matches Action::RespondAndFail(_, err) && err == LoginError::InvalidState,
        count_steps(StepKind::Exchanges, at.phase, seq![Event::Request(t)] + rest, at.expected_state@) == 0,
{
    let evs = seq![Event::Request(t)] + rest;
    assert(evs[0] == Event::<P>::Request(t));
    assert(evs.drop_first() =~= rest);
    lemma_ended_stays_ended(StepKind::Exchanges, Phase::<P>::Failed, rest, at.expected_state@);
}

/// A callback that carries a provider error fails the attempt with that
/// error, whatever else it carries, and no run that begins with it ever asks
/// for a token.
pub proof fn lemma_provider_error_never_exchanges<P>(
    a: Action<P>,
    at: Attempt<P>,
    t: String,
    q: Seq<(Seq<char>, Seq<char>)>,
    rest: Seq<Event<P>>,
)
    requires
        at.phase is AwaitingCallback,
        is_callback_target(t@),
        target_query(t@) == Some(q),
        lookup(q, "error"@) is Some,
        action_holds(a, at, Event::Request(t)),
    ensures
        next_phase(at.phase, Event::Request(t), at.expected_state@) is Failed,
        a matches Action::RespondAndFail(_, err) && err matches LoginError::Provider(x)
            && x@ == lookup(q, "error"@)->Some_0,
        count_steps(StepKind::Exchanges, at.phase, seq![Event::Request(t)] + rest, at.expected_state@) == 0,
{
    let evs = seq![Event::Request(t)] + rest;
    assert(evs[0] == Event::<P>::Request(t));
    assert(evs.drop_first() =~= rest);
    lemma_ended_stays_ended(StepKind::Exchanges, Phase::<P>::Failed, rest, at.expected_state@);
}

/// When the request stream ends before the attempt does, the attempt fails
/// with the stream-exhaustion error, and it ends exactly once whatever
/// follows.
pub proof fn lemma_stream_end_fails_once<P>(a: Action<P>, at: Attempt<P>, rest: Seq<Event<P>>)
    requires
        at.phase is AwaitingCallback || at.phase is AwaitingFinalPing,
        action_holds(a, at, Event::StreamEnded),
    ensures
        next_phase(at.phase, Event::StreamEnded, at.expected_state@) is Failed,
        a == Action::<P>::Fail(LoginError::StreamEnded),
        count_steps(StepKind::Ends, at.phase, seq![Event::StreamEnded] + rest, at.expected_state@) == 1,
{
    let evs = seq![Event::StreamEnded] + rest;
    assert(evs[0] == Event::<P>::StreamEnded);
    assert(evs.drop_first() =~= rest);
    lemma_ended_stays_ended(StepKind::Ends, Phase::<P>::Failed, rest, at.expected_state@);
}

/// A callback with a code and the expected state, followed by good replies
/// from the provider and the backend and the browser's final ping, ends the
/// attempt once, delivering the backend's session exactly as it came.
pub proof fn lemma_accepted_callback_delivers<P>(
    t: String,
    token: HttpReply<TokenResponse>,
    session: HttpReply<P>,
    ping: String,
    expected: Seq<char>,
)
    requires
        is_callback_target(t@),
        request_accepted(t@, expected),
        reply_good(Ok::<HttpReply<TokenResponse>, String>(token)),
        reply_good(Ok::<HttpReply<P>, String>(session)),
        is_root_target(ping@),
    ensures
        ({
            let evs = seq![
                Event::Request(t),
                Event::TokenReply(Ok(token)),
                Event::BackendReply(Ok(session)),
                Event::Request(ping),
            ];
            &&& next_phase(Phase::AwaitingCallback, evs[0], expected) is ExchangingToken
            &&& next_phase(Phase::ExchangingToken, evs[1], expected) is AuthenticatingBackend
            &&& next_phase(Phase::AuthenticatingBackend, evs[2], expected)
                == Phase::AwaitingFinalPing(session.parsed->Ok_0)
            &&& run_phase(Phase::AwaitingCallback, evs, expected) is Done
            &&& count_steps(StepKind::Ends, Phase::AwaitingCallback, evs, expected) == 1
            &&& count_steps(StepKind::Delivers, Phase::AwaitingCallback, evs, expected) == 1
        }),
        forall|a: Action<P>, at: Attempt<P>|
            at.phase == Phase::AwaitingFinalPing(session.parsed->Ok_0) && action_holds(a, at, Event::Request(ping))
                ==> a == Action::RespondAndSucceed(Page::Success, session.parsed->Ok_0),
{
    let evs = seq![
        Event::Request(t),
        Event::TokenReply(Ok(token)),
        Event::BackendReply(Ok(session)),
        Event::Request(ping),
    ];
    let p1 = Phase::<P>::ExchangingToken;
    let p2 = Phase::<P>::AuthenticatingBackend;
    let p3 = Phase::AwaitingFinalPing(session.parsed->Ok_0);
    lemma_root_is_not_callback(ping@);
    let s1 = evs.drop_first();
    assert(s1 =~= seq![evs[1], evs[2], evs[3]]);
    let s2 = s1.drop_first();
    assert(s2 =~= seq![evs[2], evs[3]]);
    let s3 = s2.drop_first();
    assert(s3 =~= seq![evs[3]]);
    let s4 = s3.drop_first();
    assert(s4.len() == 0);
    assert(evs[0] == Event::<P>::Request(t));
    assert(s1[0] == Event::<P>::TokenReply(Ok(token)));
    assert(s2[0] == Event::<P>::BackendReply(Ok(session)));
    assert(s3[0] == Event::<P>::Request(ping));
    assert(next_phase(Phase::AwaitingCallback, evs[0], expected) == p1);
    assert(next_phase(p1, s1[0], expected) == p2);
    assert(next_phase(p2, s2[0], expected) == p3);
    assert(next_phase(p3, s3[0], expected) == Phase::<P>::Done);
    assert(run_phase(Phase::<P>::Done, s4, expected) == Phase::<P>::Done);
    assert(count_steps(StepKind::Ends, Phase::<P>::Done, s4, expected) == 0);
    assert(count_steps(StepKind::Delivers, Phase::<P>::Done, s4, expected) == 0);
    assert(run_phase(p3, s3, expected) == Phase::<P>::Done);
    assert(run_phase(p2, s2, expected) == Phase::<P>::Done);
    assert(run_phase(p1, s1, expected) == Phase::<P>::Done);
    assert(count_steps(StepKind::Ends, p3, s3, expected) == 1);
    assert(count_steps(StepKind::Ends, p2, s2, expected) == 1);
    assert(count_steps(StepKind::Ends, p1, s1, expected) == 1);
    assert(count_steps(StepKind::Delivers, p3, s3, expected) == 1);
    assert(count_steps(StepKind::Delivers, p2, s2, expected) == 1);
    assert(count_steps(StepKind::Delivers, p1, s1, expected) == 1);
}

} // verus!
