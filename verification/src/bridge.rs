//! One request through the bridge: the rewrite of its target, the single
//! attempt against the upstream, and the reply.
//!
//! A request is attempted once. Whatever goes wrong between the bridge and
//! the upstream is one kind of failure, answered with one fixed page.

use vstd::prelude::*;
use vstd::string::StringExecFns;

verus! {

/// The status of the reply to a request that could not be forwarded.
pub const BAD_GATEWAY: u16 = 502;

/// The page sent with [`BAD_GATEWAY`].
pub open spec fn failure_page() -> Seq<char> {
    "<h1>i2a Error</h1><p>Upstream I2P connection failed.</p>"@
}

/// The text of the page sent with [`BAD_GATEWAY`].
pub fn failure_body() -> (r: String)
    ensures
        r@ == failure_page(),
{
    String::from_str("<h1>i2a Error</h1><p>Upstream I2P connection failed.</p>")
}

/// The target of the outbound request: the base URL followed by the inbound
/// path and query, character for character. Nothing is normalised: no slash
/// is added, removed or merged.
pub open spec fn rewritten_url(base_url: Seq<char>, path_and_query: Seq<char>) -> Seq<char> {
    base_url + path_and_query
}

/// Writes the target of the outbound request.
pub fn target_url(base_url: &str, path_and_query: &str) -> (r: String)
    ensures
        r@ == rewritten_url(base_url@, path_and_query@),
{
    String::from_str(base_url).concat(path_and_query)
}

/// The path and query of an inbound request as one text: the path alone
/// where the request has no query, else the path, a question mark and the
/// query, each as it came.
pub open spec fn joined_path_and_query(path: Seq<char>, query: Option<Seq<char>>) -> Seq<char> {
    match query {
        None => path,
        Some(q) => path + seq!['?'] + q,
    }
}

/// Writes the path and query of an inbound request as one text.
pub fn path_and_query(path: &str, query: Option<&str>) -> (r: String)
    ensures
        r@ == joined_path_and_query(
            path@,
            match query {
                None => None,
                Some(q) => Some(q@),
            },
        ),
{
    match query {
        None => String::from_str(path),
        Some(q) => {
            proof {
                reveal_strlit("?");
            }
            let r = String::from_str(path).concat("?").concat(q);
            assert("?"@ =~= seq!['?']);
            r
        },
    }
}

/// An inbound request, without its body: the body stays a stream with the
/// caller.
pub struct ProxyRequest {
    pub method: String,
    pub path_and_query: String,
    pub headers: Vec<(String, String)>,
}

/// The request sent to the upstream, without its body.
pub struct OutboundRequest {
    pub method: String,
    pub url: String,
    pub headers: Vec<(String, String)>,
}

/// The outbound request for an inbound one: the same method, the rewritten
/// target, and none of the inbound headers.
pub fn outbound_request(base_url: &str, request: &ProxyRequest) -> (r: OutboundRequest)
    ensures
        r.method@ == request.method@,
        r.url@ == rewritten_url(base_url@, request.path_and_query@),
        r.headers@.len() == 0,
{
    OutboundRequest {
        method: request.method.clone(),
        url: target_url(base_url, request.path_and_query.as_str()),
        headers: Vec::new(),
    }
}

/// What the one attempt against the upstream gave.
#[derive(Clone, Copy, Debug, PartialEq, Eq, Structural)]
pub enum ProxyOutcome {
    /// The upstream answered, with this status.
    Answered { status: u16 },
    /// The attempt failed, for whatever reason.
    BadGateway,
}

/// Where the body of a reply comes from.
#[derive(Clone, Copy, Debug, PartialEq, Eq, Structural)]
pub enum ReplyBody {
    /// The body of the upstream's answer, relayed as it arrives.
    UpstreamStream,
    /// The fixed failure page.
    FailurePage,
}

/// The reply to the caller, without the bytes of its body.
#[derive(Clone, Copy, Debug, PartialEq, Eq, Structural)]
pub struct Reply {
    pub status: u16,
    pub body: ReplyBody,
}

/// The reply that an outcome calls for: the upstream's own status with its
/// body, or the failure status with the failure page.
pub open spec fn reply_of(outcome: ProxyOutcome) -> Reply {
    match outcome {
        ProxyOutcome::Answered { status } => Reply { status, body: ReplyBody::UpstreamStream },
        ProxyOutcome::BadGateway => Reply { status: 502, body: ReplyBody::FailurePage },
    }
}

/// Decides the reply for an outcome.
pub fn reply_for(outcome: ProxyOutcome) -> (r: Reply)
    ensures
        r == reply_of(outcome),
{
    match outcome {
        ProxyOutcome::Answered { status } => Reply { status, body: ReplyBody::UpstreamStream },
        ProxyOutcome::BadGateway => Reply { status: BAD_GATEWAY, body: ReplyBody::FailurePage },
    }
}

/// The stations of one request.
#[derive(Clone, Copy, Debug, PartialEq, Eq, Structural)]
pub enum RequestState {
    Received,
    ForwardingToUpstream,
    StreamingResponse,
    Failed,
    Closed,
}

/// What happens to a request.
#[derive(Clone, Copy, Debug, PartialEq, Eq, Structural)]
pub enum RequestEvent {
    /// The handler takes the request up.
    Accepted,
    /// The attempt against the upstream has ended.
    Upstream(ProxyOutcome),
    /// The reply has been sent to its end.
    ReplySent,
}

/// What the caller does for a request.
#[derive(Clone, Copy, Debug, PartialEq, Eq, Structural)]
pub enum RequestAction {
    /// Send the outbound request to the upstream, once.
    SendUpstream,
    /// Answer the caller.
    Respond(Reply),
    /// Let go of the request.
    Close,
    /// Nothing: the event has no place in this state.
    Nothing,
}

/// The state after an event.
pub open spec fn next_state(state: RequestState, event: RequestEvent) -> RequestState {
    match (state, event) {
        (RequestState::Received, RequestEvent::Accepted) => RequestState::ForwardingToUpstream,
        (
            RequestState::ForwardingToUpstream,
            RequestEvent::Upstream(ProxyOutcome::Answered { .. }),
        ) => RequestState::StreamingResponse,
        (RequestState::ForwardingToUpstream, RequestEvent::Upstream(ProxyOutcome::BadGateway)) => {
            RequestState::Failed
        },
        (RequestState::StreamingResponse, RequestEvent::ReplySent) => RequestState::Closed,
        (RequestState::Failed, RequestEvent::ReplySent) => RequestState::Closed,
        _ => state,
    }
}

/// The action that an event calls for.
pub open spec fn action_on(state: RequestState, event: RequestEvent) -> RequestAction {
    match (state, event) {
        (RequestState::Received, RequestEvent::Accepted) => RequestAction::SendUpstream,
        (RequestState::ForwardingToUpstream, RequestEvent::Upstream(outcome)) => {
            RequestAction::Respond(reply_of(outcome))
        },
        (RequestState::StreamingResponse, RequestEvent::ReplySent) => RequestAction::Close,
        (RequestState::Failed, RequestEvent::ReplySent) => RequestAction::Close,
        _ => RequestAction::Nothing,
    }
}

/// Takes one event for a request and gives the next state and the action.
pub fn handle_request(state: RequestState, event: RequestEvent) -> (r: (RequestState, RequestAction))
    ensures
        r.0 == next_state(state, event),
        r.1 == action_on(state, event),
{
    match state {
        RequestState::Received => match event {
            RequestEvent::Accepted => (
                RequestState::ForwardingToUpstream,
                RequestAction::SendUpstream,
            ),
            _ => (state, RequestAction::Nothing),
        },
        RequestState::ForwardingToUpstream => match event {
            RequestEvent::Upstream(outcome) => {
                let reply = reply_for(outcome);
                let next = match outcome {
                    ProxyOutcome::Answered { .. } => RequestState::StreamingResponse,
                    ProxyOutcome::BadGateway => RequestState::Failed,
                };
                (next, RequestAction::Respond(reply))
            },
            _ => (state, RequestAction::Nothing),
        },
        RequestState::StreamingResponse => match event {
            RequestEvent::ReplySent => (RequestState::Closed, RequestAction::Close),
            _ => (state, RequestAction::Nothing),
        },
        RequestState::Failed => match event {
            RequestEvent::ReplySent => (RequestState::Closed, RequestAction::Close),
            _ => (state, RequestAction::Nothing),
        },
        RequestState::Closed => (state, RequestAction::Nothing),
    }
}

/// The number of times that the upstream is called while `events` happen to
/// a request in `state`.
pub open spec fn sends(state: RequestState, events: Seq<RequestEvent>) -> nat
    decreases events.len(),
{
    if events.len() == 0 {
        0
    } else {
        let here: nat = if action_on(state, events[0]) == RequestAction::SendUpstream {
            1
        } else {
            0
        };
        here + sends(next_state(state, events[0]), events.skip(1))
    }
}

/// The number of replies given while `events` happen to a request in
/// `state`.
pub open spec fn replies(state: RequestState, events: Seq<RequestEvent>) -> nat
    decreases events.len(),
{
    if events.len() == 0 {
        0
    } else {
        let here: nat = if action_on(state, events[0]) is Respond {
            1
        } else {
            0
        };
        here + replies(next_state(state, events[0]), events.skip(1))
    }
}

/// The state of a request after `events`.
pub open spec fn state_after(state: RequestState, events: Seq<RequestEvent>) -> RequestState
    decreases events.len(),
{
    if events.len() == 0 {
        state
    } else {
        state_after(next_state(state, events[0]), events.skip(1))
    }
}

/// How far a request has come: a state is never left for an earlier one.
pub open spec fn progress(state: RequestState) -> nat {
    match state {
        RequestState::Received => 0,
        RequestState::ForwardingToUpstream => 1,
        RequestState::StreamingResponse => 2,
        RequestState::Failed => 2,
        RequestState::Closed => 3,
    }
}

proof fn lemma_counts(state: RequestState, events: Seq<RequestEvent>)
    ensures
        sends(state, events) <= (if state == RequestState::Received {
            1nat
        } else {
            0nat
        }),
        replies(state, events) <= (if progress(state) <= 1 {
            1nat
        } else {
            0nat
        }),
        progress(state) <= progress(state_after(state, events)),
    decreases events.len(),
{
    if events.len() > 0 {
        lemma_counts(next_state(state, events[0]), events.skip(1));
    }
}

/// Whatever happens to a request, the upstream is called at most once for
/// it and the caller is answered at most once: nothing is tried again.
pub proof fn attempted_at_most_once(events: Seq<RequestEvent>)
    ensures
        sends(RequestState::Received, events) <= 1,
        replies(RequestState::Received, events) <= 1,
{
    lemma_counts(RequestState::Received, events);
}

/// A request that the handler takes up is sent to the upstream exactly
/// once, whatever follows.
pub proof fn accepted_request_is_sent_once(events: Seq<RequestEvent>)
    requires
        events.len() > 0,
        events[0] == RequestEvent::Accepted,
    ensures
        sends(RequestState::Received, events) == 1,
{
    lemma_counts(RequestState::ForwardingToUpstream, events.skip(1));
}

/// A request that is taken up, attempted and answered to the end goes
/// through its stations in order: one call of the upstream, one reply that
/// is the one the outcome calls for, and then it is closed. A failed attempt
/// is answered with the failure status and page, an answered one with the
/// upstream's own status and body.
pub proof fn lifecycle_of_one_request(outcome: ProxyOutcome)
    ensures
        ({
            let events = seq![
                RequestEvent::Accepted,
                RequestEvent::Upstream(outcome),
                RequestEvent::ReplySent,
            ];
            &&& sends(RequestState::Received, events) == 1
            &&& replies(RequestState::Received, events) == 1
            &&& state_after(RequestState::Received, events) == RequestState::Closed
            &&& action_on(RequestState::ForwardingToUpstream, events[1]) == RequestAction::Respond(
                reply_of(outcome),
            )
        }),
        outcome is BadGateway ==> reply_of(outcome) == (Reply {
            status: 502,
            body: ReplyBody::FailurePage,
        }),
        outcome is Answered ==> reply_of(outcome).status == outcome->status && reply_of(
            outcome,
        ).body == ReplyBody::UpstreamStream,
{
    let events = seq![
        RequestEvent::Accepted,
        RequestEvent::Upstream(outcome),
        RequestEvent::ReplySent,
    ];
    reveal_with_fuel(sends, 4);
    reveal_with_fuel(replies, 4);
    reveal_with_fuel(state_after, 4);
    let e1 = events.skip(1);
    let e2 = e1.skip(1);
    let e3 = e2.skip(1);
    assert(e1.len() == 2 && e1[0] == RequestEvent::Upstream(outcome));
    assert(e2.len() == 1 && e2[0] == RequestEvent::ReplySent);
    assert(e3.len() == 0);
}

/// The events that a run of events for several requests holds for the
/// request `who`, in their order. Each event of the run is paired with the
/// number of the request it belongs to.
pub open spec fn events_of(run: Seq<(int, RequestEvent)>, who: int) -> Seq<RequestEvent>
    decreases run.len(),
{
    if run.len() == 0 {
        Seq::empty()
    } else if run[0].0 == who {
        seq![run[0].1] + events_of(run.skip(1), who)
    } else {
        events_of(run.skip(1), who)
    }
}

/// The states of several requests in flight after a run of events, each
/// event taken by [`next_state`] for the request it belongs to. An event
/// for a request that is not in flight changes nothing.
pub open spec fn states_after(
    states: Seq<RequestState>,
    run: Seq<(int, RequestEvent)>,
) -> Seq<RequestState>
    decreases run.len(),
{
    if run.len() == 0 {
        states
    } else {
        states_after(states_after_one(states, run[0].0, run[0].1), run.skip(1))
    }
}

/// The states of several requests in flight after one event for one of
/// them.
pub open spec fn states_after_one(
    states: Seq<RequestState>,
    who: int,
    event: RequestEvent,
) -> Seq<RequestState> {
    if 0 <= who < states.len() {
        states.update(who, next_state(states[who], event))
    } else {
        states
    }
}

/// Requests in flight do not touch each other: however the events of
/// several requests are interleaved, each request ends in the state that
/// its own events alone lead to.
pub proof fn requests_do_not_interfere(
    states: Seq<RequestState>,
    run: Seq<(int, RequestEvent)>,
    who: int,
)
    requires
        0 <= who < states.len(),
    ensures
        states_after(states, run).len() == states.len(),
        states_after(states, run)[who] == state_after(states[who], events_of(run, who)),
    decreases run.len(),
{
    if run.len() > 0 {
        let next = states_after_one(states, run[0].0, run[0].1);
        requests_do_not_interfere(next, run.skip(1), who);
        if run[0].0 == who {
            let own = events_of(run, who);
            assert(own[0] == run[0].1);
            assert(own.skip(1) =~= events_of(run.skip(1), who));
        }
    }
}

/// The action for an event depends on the request's own history alone:
/// after any interleaved run, the action that an event calls for is the one
/// it would call for had only that request's events happened.
pub proof fn action_depends_on_own_events(
    states: Seq<RequestState>,
    run: Seq<(int, RequestEvent)>,
    who: int,
    event: RequestEvent,
)
    requires
        0 <= who < states.len(),
    ensures
        action_on(states_after(states, run)[who], event) == action_on(
            state_after(states[who], events_of(run, who)),
            event,
        ),
{
    requests_do_not_interfere(states, run, who);
}

} // verus!
