//! The life of one API request, as a state machine.
//!
//! A request first makes sure that a session exists (logging in if not),
//! then sends itself.  An answer that rejects the session leads to one
//! fresh login and one more attempt; a second rejection gives up with
//! `RequestError::Unauthorized`.  A successful `GET` answer still has to be
//! decoded.  The caller performs each `Step` that the flow asks for and
//! hands back what came of it as an `Event`.

use vstd::prelude::*;

use crate::{is_auth_failure_status, is_success_status, status_is_auth_failure, status_is_success};
use crate::{Method, RequestError};

verus! {

/// What the flow is waiting for.
#[derive(Clone, Copy, PartialEq, Eq, Structural, Debug)]
pub enum Phase {
    /// The result of a login.
    Authenticating,
    /// The answer to the request.
    Awaiting,
    /// The result of decoding a successful answer (`GET` only).
    Decoding,
    /// Nothing: the request is over.
    Finished,
}

/// The state of one request.
pub struct RequestFlow {
    pub method: Method,
    pub phase: Phase,
    /// How many fresh logins the request may still make after its session
    /// was rejected.
    pub retries_remaining: u8,
    /// Whether the client holds a session: it had one when the request
    /// started, or a login of this request succeeded.
    pub session_held: bool,
}

/// What the caller has to do next.
pub enum Step {
    /// Log in and install the new session.
    Authenticate,
    /// Send the request with the current session.
    Send,
    /// Decode the body of the successful answer.
    Decode,
    /// The request is over, with this outcome.
    Finish(Result<(), RequestError>),
}

/// What came of the last step.
pub enum Event {
    /// The login finished (with the error of a failed login).
    Authenticated(Result<(), RequestError>),
    /// The request was answered with this status, or failed on the network.
    Responded(Result<u16, reqwest::Error>),
    /// The answer's body was decoded, or could not be (with the reason).
    Decoded(Result<(), String>),
}

/// The flow with `phase` in place of its own phase.
pub open spec fn with_phase(f: RequestFlow, phase: Phase) -> RequestFlow {
    RequestFlow {
        method: f.method,
        phase: phase,
        retries_remaining: f.retries_remaining,
        session_held: f.session_held,
    }
}

/// The end of a request with `outcome`.
pub open spec fn finish_spec(f: RequestFlow, outcome: Result<(), RequestError>) -> (RequestFlow, Step) {
    (with_phase(f, Phase::Finished), Step::Finish(outcome))
}

/// How a request starts: with a session it is sent at once, without one
/// it logs in first.  It may log in once more after a rejection.
pub open spec fn start_spec(method: Method, has_session: bool) -> (RequestFlow, Step) {
    if has_session {
        (RequestFlow { method: method, phase: Phase::Awaiting, retries_remaining: 1, session_held: true }, Step::Send)
    } else {
        (
            RequestFlow { method: method, phase: Phase::Authenticating, retries_remaining: 1, session_held: false },
            Step::Authenticate,
        )
    }
}

/// The transition of a request on one event.
pub open spec fn next_spec(f: RequestFlow, event: Event) -> (RequestFlow, Step) {
    match f.phase {
        Phase::Authenticating => match event {
            Event::Authenticated(Ok(())) => (
                RequestFlow {
                    method: f.method,
                    phase: Phase::Awaiting,
                    retries_remaining: f.retries_remaining,
                    session_held: true,
                },
                Step::Send,
            ),
            Event::Authenticated(Err(e)) => finish_spec(f, Err(e)),
            _ => finish_spec(f, Err(RequestError::Unknown)),
        },
        Phase::Awaiting => match event {
            Event::Responded(Err(e)) => finish_spec(f, Err(RequestError::NetworkError(e))),
            Event::Responded(Ok(status)) => {
                if is_success_status(status) {
                    if f.method == Method::Get {
                        (with_phase(f, Phase::Decoding), Step::Decode)
                    } else {
                        finish_spec(f, Ok(()))
                    }
                } else if is_auth_failure_status(status) {
                    if f.retries_remaining > 0 {
                        (
                            RequestFlow {
                                method: f.method,
                                phase: Phase::Authenticating,
                                retries_remaining: (f.retries_remaining - 1) as u8,
                                session_held: f.session_held,
                            },
                            Step::Authenticate,
                        )
                    } else {
                        finish_spec(f, Err(RequestError::Unauthorized))
                    }
                } else {
                    finish_spec(f, Err(RequestError::Unknown))
                }
            },
            _ => finish_spec(f, Err(RequestError::Unknown)),
        },
        Phase::Decoding => match event {
            Event::Decoded(Ok(())) => finish_spec(f, Ok(())),
            Event::Decoded(Err(reason)) => finish_spec(f, Err(RequestError::DeserializationError(reason))),
            _ => finish_spec(f, Err(RequestError::Unknown)),
        },
        Phase::Finished => finish_spec(f, Err(RequestError::Unknown)),
    }
}

/// The flow after `events` were fed into `f`, one after another.
pub open spec fn run(f: RequestFlow, events: Seq<Event>) -> RequestFlow
    decreases events.len(),
{
    if events.len() == 0 {
        f
    } else {
        next_spec(run(f, events.drop_last()), events.last()).0
    }
}

/// The steps that `f` asks for while `events` are fed into it.
pub open spec fn steps_of(f: RequestFlow, events: Seq<Event>) -> Seq<Step>
    decreases events.len(),
{
    if events.len() == 0 {
        Seq::empty()
    } else {
        steps_of(f, events.drop_last()).push(next_spec(run(f, events.drop_last()), events.last()).1)
    }
}

/// How many of `steps` send the request.
pub open spec fn count_sends(steps: Seq<Step>) -> nat
    decreases steps.len(),
{
    if steps.len() == 0 {
        0
    } else {
        count_sends(steps.drop_last()) + if steps.last() is Send { 1nat } else { 0nat }
    }
}

/// How many of `steps` log in.
pub open spec fn count_logins(steps: Seq<Step>) -> nat
    decreases steps.len(),
{
    if steps.len() == 0 {
        0
    } else {
        count_logins(steps.drop_last()) + if steps.last() is Authenticate { 1nat } else { 0nat }
    }
}

/// How many more times a flow in state `f` may still send its request.
pub open spec fn send_budget(f: RequestFlow) -> nat {
    match f.phase {
        Phase::Authenticating => 1 + f.retries_remaining as nat,
        Phase::Awaiting => f.retries_remaining as nat,
        _ => 0,
    }
}

/// How many more logins a flow in state `f` may still ask for.
pub open spec fn login_budget(f: RequestFlow) -> nat {
    match f.phase {
        Phase::Authenticating | Phase::Awaiting => f.retries_remaining as nat,
        _ => 0,
    }
}

/// How many more events a flow in state `f` can take before it is over.
pub open spec fn event_budget(f: RequestFlow) -> nat {
    match f.phase {
        Phase::Authenticating => 3 + 2 * (f.retries_remaining as nat),
        Phase::Awaiting => 2 + 2 * (f.retries_remaining as nat),
        Phase::Decoding => 1,
        Phase::Finished => 0,
    }
}

proof fn lemma_step_budgets(f: RequestFlow, e: Event)
    ensures
        ({
            let (g, s) = next_spec(f, e);
            &&& send_budget(g) + (if s is Send { 1nat } else { 0nat }) <= send_budget(f)
            &&& login_budget(g) + (if s is Authenticate { 1nat } else { 0nat }) <= login_budget(f)
            &&& g.phase != Phase::Finished ==> event_budget(g) < event_budget(f)
            &&& f.phase == Phase::Finished ==> g.phase == Phase::Finished
            &&& g.method == f.method
            &&& g.phase != Phase::Finished ==> g.retries_remaining + (if s is Authenticate { 1nat } else { 0nat }) == f.retries_remaining
            &&& f.session_held ==> g.session_held
            &&& s is Send ==> g.session_held
        }),
{
}

proof fn lemma_run_budgets(f: RequestFlow, events: Seq<Event>)
    ensures
        count_sends(steps_of(f, events)) + send_budget(run(f, events)) <= send_budget(f),
        count_logins(steps_of(f, events)) + login_budget(run(f, events)) <= login_budget(f),
        run(f, events).phase == Phase::Finished || event_budget(run(f, events)) + events.len() <= event_budget(f),
        run(f, events).method == f.method,
        run(f, events).phase != Phase::Finished ==> run(f, events).retries_remaining + count_logins(steps_of(f, events)) == f.retries_remaining,
        f.session_held ==> run(f, events).session_held,
        count_sends(steps_of(f, events)) > 0 ==> run(f, events).session_held,
    decreases events.len(),
{
    if events.len() > 0 {
        let pre = events.drop_last();
        lemma_run_budgets(f, pre);
        lemma_step_budgets(run(f, pre), events.last());
        let g = run(f, pre);
        if g.phase == Phase::Finished {
            assert(run(f, events).phase == Phase::Finished);
        }
        assert(steps_of(f, events).drop_last() == steps_of(f, pre));
    }
}

/// A request sends itself at most twice: once, and once more after one
/// fresh login that followed a rejected session.
pub proof fn law_request_sent_at_most_twice(method: Method, has_session: bool, events: Seq<Event>)
    ensures
        ({
            let (f, first) = start_spec(method, has_session);
            count_sends(steps_of(f, events)) + (if first is Send { 1nat } else { 0nat }) <= 2
        }),
{
    lemma_run_budgets(start_spec(method, has_session).0, events);
}

/// After its start, a request asks for at most one login: the fresh login
/// that follows a rejected session.  (A request without a session also
/// logs in at its start.)
pub proof fn law_at_most_one_fresh_login(method: Method, has_session: bool, events: Seq<Event>)
    ensures
        count_logins(steps_of(start_spec(method, has_session).0, events)) <= 1,
{
    lemma_run_budgets(start_spec(method, has_session).0, events);
}

/// Every request is over after at most five events, and stays over.
pub proof fn law_request_finishes(method: Method, has_session: bool, events: Seq<Event>)
    requires
        events.len() >= 5,
    ensures
        run(start_spec(method, has_session).0, events).phase == Phase::Finished,
{
    lemma_run_budgets(start_spec(method, has_session).0, events);
}

/// A finished request stays finished, whatever it is fed.
pub proof fn law_finished_is_final(f: RequestFlow, events: Seq<Event>)
    requires
        f.phase == Phase::Finished,
    ensures
        run(f, events).phase == Phase::Finished,
    decreases events.len(),
{
    if events.len() > 0 {
        law_finished_is_final(f, events.drop_last());
    }
}

/// A request gives up as unauthorized only when a login was refused, or
/// when its session was rejected after it had already made its one fresh
/// login.
pub proof fn law_unauthorized_after_fresh_login(method: Method, has_session: bool, events: Seq<Event>)
    requires
        events.len() > 0,
        next_spec(
            run(start_spec(method, has_session).0, events.drop_last()),
            events.last(),
        ).1 == Step::Finish(Err(RequestError::Unauthorized)),
    ensures
        ({
            ||| events.last() == Event::Authenticated(Err(RequestError::Unauthorized))
            ||| count_logins(steps_of(start_spec(method, has_session).0, events.drop_last())) == 1
                && (events.last() matches Event::Responded(Ok(status))
                && is_auth_failure_status(status))
        }),
{
    let f = start_spec(method, has_session).0;
    let pre = events.drop_last();
    lemma_run_budgets(f, pre);
    let g = run(f, pre);
    if g.phase == Phase::Awaiting {
        assert(g.retries_remaining == 0);
    }
}

/// Every send happens with a session held: a request sends at its start
/// only when the client holds a session, and later only right after a
/// login that succeeded.
pub proof fn law_send_needs_session(f: RequestFlow, e: Event, method: Method, has_session: bool)
    ensures
        start_spec(method, has_session).1 is Send ==> has_session,
        next_spec(f, e).1 is Send ==> (e matches Event::Authenticated(Ok(_))) && next_spec(f, e).0.session_held,
{
}

/// A session, once held, stays held whatever happens to the request.
pub proof fn law_session_kept(f: RequestFlow, events: Seq<Event>)
    requires
        f.session_held,
    ensures
        run(f, events).session_held,
{
    lemma_run_budgets(f, events);
}

/// A session is reused across requests: a request that found a session or
/// that sent itself leaves a session held, and the next request made with
/// that session is sent at once, without a login.
pub proof fn law_session_reused(first: Method, has_session: bool, events: Seq<Event>, second: Method)
    requires
        has_session || count_sends(steps_of(start_spec(first, has_session).0, events)) > 0,
    ensures
        run(start_spec(first, has_session).0, events).session_held,
        start_spec(second, run(start_spec(first, has_session).0, events).session_held).1 is Send,
{
    lemma_run_budgets(start_spec(first, has_session).0, events);
}

/// A rejected session leads to a fresh login and, once that succeeded,
/// to sending the request again; a second rejection gives up as
/// unauthorized.
pub proof fn law_rejection_then_retry(method: Method, first: u16, second: u16)
    requires
        is_auth_failure_status(first),
        is_auth_failure_status(second),
    ensures
        ({
            let f = start_spec(method, true).0;
            let events = seq![
                Event::Responded(Ok(first)),
                Event::Authenticated(Ok(())),
                Event::Responded(Ok(second)),
            ];
            steps_of(f, events) == seq![
                Step::Authenticate,
                Step::Send,
                Step::Finish(Err(RequestError::Unauthorized)),
            ]
        }),
{
    let f = start_spec(method, true).0;
    let events = seq![
        Event::Responded(Ok(first)),
        Event::Authenticated(Ok(())),
        Event::Responded(Ok(second)),
    ];
    let e1 = events.drop_last().drop_last();
    let e2 = events.drop_last();
    assert(e1.drop_last() =~= Seq::<Event>::empty());
    assert(e1 =~= seq![Event::Responded(Ok(first))]);
    assert(e2 =~= seq![Event::Responded(Ok(first)), Event::Authenticated(Ok(()))]);
    assert(run(f, e1.drop_last()) == f);
    assert(steps_of(f, e1.drop_last()) =~= Seq::<Step>::empty());
    assert(e1.last() == Event::Responded(Ok(first)));
    let f1 = run(f, e1);
    assert(f1 == RequestFlow {
        method: method,
        phase: Phase::Authenticating,
        retries_remaining: 0,
        session_held: true,
    });
    assert(steps_of(f, e1) =~= seq![Step::Authenticate]);
    assert(e2.drop_last() == e1);
    assert(e2.last() == Event::Authenticated(Ok(())));
    let f2 = run(f, e2);
    assert(f2 == RequestFlow { method: method, phase: Phase::Awaiting, retries_remaining: 0, session_held: true });
    assert(steps_of(f, e2) =~= seq![Step::Authenticate, Step::Send]);
    assert(steps_of(f, events) =~= seq![
        Step::Authenticate,
        Step::Send,
        Step::Finish(Err(RequestError::Unauthorized)),
    ]);
}

/// A request ends well only on a success answer: a `PATCH` on the answer
/// itself, a `GET` once that answer's body was decoded.
pub proof fn law_success_needs_success_answer(f: RequestFlow, e: Event)
    requires
        next_spec(f, e).1 == Step::Finish(Ok(())),
    ensures
        ({
            ||| f.method == Method::Patch && f.phase == Phase::Awaiting
                && (e matches Event::Responded(Ok(status)) && is_success_status(status))
            ||| f.phase == Phase::Decoding && (e matches Event::Decoded(Ok(())))
        }),
{
}

/// A `GET` flow decodes only what a success answer brought.
pub proof fn law_decoding_follows_success(f: RequestFlow, e: Event)
    requires
        next_spec(f, e).1 is Decode,
    ensures
        f.method == Method::Get,
        f.phase == Phase::Awaiting,
        e matches Event::Responded(Ok(status)) && is_success_status(status),
{
}

/// A success (2xx) answer is accepted, whatever its exact status: a `PATCH`
/// is done with `Ok`, a `GET` goes on to decode the answer.
pub proof fn law_success_answer_accepted(f: RequestFlow, status: u16)
    requires
        f.phase == Phase::Awaiting,
        200 <= status <= 299,
    ensures
        f.method == Method::Patch ==> next_spec(f, Event::Responded(Ok(status))).1 == Step::Finish(Ok(())),
        f.method == Method::Get ==> next_spec(f, Event::Responded(Ok(status))).1 is Decode,
{
}

/// A failed login ends the request with that login's own error, and a
/// request that fails on the network ends with that network error.
pub proof fn law_failures_handed_back(f: RequestFlow, login_error: RequestError, network_error: reqwest::Error)
    ensures
        f.phase == Phase::Authenticating
            ==> next_spec(f, Event::Authenticated(Err(login_error))).1 == Step::Finish(Err(login_error)),
        f.phase == Phase::Awaiting
            ==> next_spec(f, Event::Responded(Err(network_error))).1
                == Step::Finish(Err(RequestError::NetworkError(network_error))),
{
}

/// A request keeps the method it was started with, whatever it is fed.
pub proof fn law_method_kept(method: Method, has_session: bool, events: Seq<Event>)
    ensures
        start_spec(method, has_session).0.method == method,
        run(start_spec(method, has_session).0, events).method == method,
{
    lemma_run_budgets(start_spec(method, has_session).0, events);
}

/// A `PATCH` never asks to decode its answer: its steps, from the first on,
/// hold no `Decode`.
pub proof fn law_patch_never_decodes(has_session: bool, events: Seq<Event>)
    ensures
        !(start_spec(Method::Patch, has_session).1 is Decode),
        forall|i: int|
            0 <= i < steps_of(start_spec(Method::Patch, has_session).0, events).len()
                ==> !(#[trigger] steps_of(start_spec(Method::Patch, has_session).0, events)[i] is Decode),
    decreases events.len(),
{
    let f = start_spec(Method::Patch, has_session).0;
    if events.len() > 0 {
        let pre = events.drop_last();
        law_patch_never_decodes(has_session, pre);
        lemma_run_budgets(f, pre);
        let g = run(f, pre);
        assert(g.method == Method::Patch);
        assert(!(next_spec(g, events.last()).1 is Decode));
        let all = steps_of(f, events);
        assert(all == steps_of(f, pre).push(next_spec(g, events.last()).1));
        assert forall|i: int| 0 <= i < all.len() implies !(#[trigger] all[i] is Decode) by {
            if i < steps_of(f, pre).len() {
                assert(all[i] == steps_of(f, pre)[i]);
            }
        }
    }
}

impl RequestFlow {
    /// Starts a request made with `method`; `has_session` tells whether the
    /// client already holds a session.  Returns the flow and its first step.
    pub fn start(method: Method, has_session: bool) -> (r: (RequestFlow, Step))
        ensures
            r == start_spec(method, has_session),
            r.1 is Authenticate <==> !has_session,
            r.0.session_held == has_session,
    {
        if has_session {
            (RequestFlow { method, phase: Phase::Awaiting, retries_remaining: 1, session_held: true }, Step::Send)
        } else {
            (
                RequestFlow { method, phase: Phase::Authenticating, retries_remaining: 1, session_held: false },
                Step::Authenticate,
            )
        }
    }

    /// Feeds the outcome of the last step into the flow.  Returns the new
    /// flow and the next step.  An event the flow did not ask for ends the
    /// request with `RequestError::Unknown`.
    pub fn next(self, event: Event) -> (r: (RequestFlow, Step))
        ensures
            r == next_spec(self, event),
    {
        let method = self.method;
        let retries_remaining = self.retries_remaining;
        let session_held = self.session_held;
        let finished = RequestFlow { method, phase: Phase::Finished, retries_remaining, session_held };
        match self.phase {
            Phase::Authenticating => match event {
                Event::Authenticated(Ok(())) => (
                    RequestFlow { method, phase: Phase::Awaiting, retries_remaining, session_held: true },
                    Step::Send,
                ),
                Event::Authenticated(Err(e)) => (finished, Step::Finish(Err(e))),
                _ => (finished, Step::Finish(Err(RequestError::Unknown))),
            },
            Phase::Awaiting => match event {
                Event::Responded(Err(e)) => (finished, Step::Finish(Err(RequestError::NetworkError(e)))),
                Event::Responded(Ok(status)) => {
                    if status_is_success(status) {
                        match method {
                            Method::Get => (
                                RequestFlow { method, phase: Phase::Decoding, retries_remaining, session_held },
                                Step::Decode,
                            ),
                            Method::Patch => (finished, Step::Finish(Ok(()))),
                        }
                    } else if status_is_auth_failure(status) {
                        if retries_remaining > 0 {
                            (
                                RequestFlow {
                                    method,
                                    phase: Phase::Authenticating,
                                    retries_remaining: retries_remaining - 1,
                                    session_held,
                                },
                                Step::Authenticate,
                            )
                        } else {
                            (finished, Step::Finish(Err(RequestError::Unauthorized)))
                        }
                    } else {
                        (finished, Step::Finish(Err(RequestError::Unknown)))
                    }
                },
                _ => (finished, Step::Finish(Err(RequestError::Unknown))),
            },
            Phase::Decoding => match event {
                Event::Decoded(Ok(())) => (finished, Step::Finish(Ok(()))),
                Event::Decoded(Err(reason)) => (
                    finished,
                    Step::Finish(Err(RequestError::DeserializationError(reason))),
                ),
                _ => (finished, Step::Finish(Err(RequestError::Unknown))),
            },
            Phase::Finished => (finished, Step::Finish(Err(RequestError::Unknown))),
        }
    }
}

} // verus!
