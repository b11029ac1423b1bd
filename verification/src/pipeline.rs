//! The path of one request: admission, then validation and the probe under
//! the request's deadline, then exactly one reply. The decisions are taken
//! here; trying the connection and keeping the deadline is the caller's part,
//! who reports back with an event.

use vstd::prelude::*;
use crate::api::{
    admitted_action, is_validation_reply, names_rejected_fields, probe_reply, probe_reply_of,
    rate_limited_reply, rate_limited_reply_of, reply_details, tcping_v1, timed_out_reply,
    timed_out_reply_of, validation_reply, validation_reply_of, Action, ActionView, ConnectOutcome,
    ConnectOutcomeView, HttpReply, HttpReplyView, TcpingParams, TcpingParamsView,
    STATUS_BAD_REQUEST, STATUS_REQUEST_TIMEOUT,
};
use crate::config::ApiConfig;
use crate::limiter::Limiter;

verus! {

/// A request as it comes off the wire: the parameters of a probe, or, where
/// the query could not be read as an address text and a 16-bit port, the
/// reason why.
#[derive(Debug)]
pub enum Request {
    Probe(TcpingParams),
    Unreadable(String),
}

/// A `Request` as a value of specifications.
pub enum RequestView {
    Probe(TcpingParamsView),
    Unreadable(Seq<char>),
}

impl View for Request {
    type V = RequestView;

    open spec fn view(&self) -> RequestView {
        match self {
            Request::Probe(params) => RequestView::Probe(params@),
            Request::Unreadable(reason) => RequestView::Unreadable(reason@),
        }
    }
}

impl RequestView {
    /// The request can be probed: its query was read, and its parameters are
    /// valid.
    pub open spec fn is_acceptable(self) -> bool {
        self matches RequestView::Probe(params) && params.is_valid()
    }
}

/// Where a request stands.
#[derive(Clone, Copy, Debug, PartialEq, Eq, Structural)]
pub enum State {
    /// It has arrived, and the rate limiter has not answered yet.
    Arrived,
    /// It was admitted and found acceptable: its probe is under way and its
    /// deadline is running.
    Probing,
    /// Its reply has been decided. Nothing more happens to it.
    Replied,
}

/// What can happen to a request.
#[derive(Debug)]
pub enum Event {
    /// The rate limiter answered: `true` admits the request.
    Admission(bool),
    /// The connection attempt ended.
    Probe(ConnectOutcome),
    /// The request's deadline passed.
    Deadline,
}

/// An `Event` as a value of specifications.
pub enum EventView {
    Admission(bool),
    Probe(ConnectOutcomeView),
    Deadline,
}

impl View for Event {
    type V = EventView;

    open spec fn view(&self) -> EventView {
        match self {
            Event::Admission(admitted) => EventView::Admission(*admitted),
            Event::Probe(outcome) => EventView::Probe(outcome@),
            Event::Deadline => EventView::Deadline,
        }
    }
}

/// A step's result as a value of specifications.
pub open spec fn taken_view(taken: Option<(State, Action)>) -> Option<(State, ActionView)> {
    match taken {
        Some((next, action)) => Some((next, action@)),
        None => None,
    }
}

/// The steps a request can take. `taken` is what `event` leads to in
/// `state`: the next state and what to do, or `None` where the event has no
/// place in that state.
///
/// - A request turned away at the limiter is answered with
///   `STATUS_TOO_MANY_REQUESTS`, before anything is looked at.
/// - An admitted request is checked: an acceptable one starts its probe, any
///   other is answered with `STATUS_BAD_REQUEST`; one whose query could not
///   be read, with the reason as the details.
/// - A probe that ends is answered with its result.
/// - A deadline that passes while the probe is under way is answered with
///   `STATUS_REQUEST_TIMEOUT`.
pub open spec fn step_allows(
    state: State,
    event: EventView,
    request: RequestView,
    config: ApiConfig,
    taken: Option<(State, ActionView)>,
) -> bool {
    match (state, event) {
        (State::Arrived, EventView::Admission(false)) => taken == Some(
            (State::Replied, ActionView::Respond(rate_limited_reply_of())),
        ),
        (State::Arrived, EventView::Admission(true)) => {
            &&& taken matches Some((next, action))
            &&& match request {
                RequestView::Probe(params) => admitted_action(params, config, action),
                RequestView::Unreadable(reason) => action == ActionView::Respond(
                    validation_reply_of(reason),
                ),
            }
            &&& next == if request.is_acceptable() {
                State::Probing
            } else {
                State::Replied
            }
        },
        (State::Probing, EventView::Probe(outcome)) => taken == Some(
            (State::Replied, ActionView::Respond(probe_reply_of(outcome))),
        ),
        (State::Probing, EventView::Deadline) => taken == Some(
            (State::Replied, ActionView::Respond(timed_out_reply_of())),
        ),
        _ => taken is None,
    }
}

/// What the limiter's answer means for any request, whatever it asks for: a
/// request that is turned away is answered at once, an admitted one goes on.
pub open spec fn admission_reply_of(admitted: bool) -> Option<HttpReplyView> {
    if admitted {
        None
    } else {
        Some(rate_limited_reply_of())
    }
}

/// The reply that the limiter's answer calls for, if it calls for one.
pub fn admission_reply(admitted: bool) -> (reply: Option<HttpReply>)
    ensures
        match reply {
            Some(denied) => admission_reply_of(admitted) == Some(denied@),
            None => admission_reply_of(admitted) is None,
        },
{
    if admitted {
        None
    } else {
        Some(rate_limited_reply())
    }
}

/// The first step of a request, once the limiter has answered.
pub fn first_step(admitted: bool, request: &Request, config: &ApiConfig) -> (first: (
    State,
    Action,
))
    ensures
        step_allows(
            State::Arrived,
            EventView::Admission(admitted),
            request@,
            *config,
            Some((first.0, first.1@)),
        ),
{
    if let Some(denied) = admission_reply(admitted) {
        return (State::Replied, Action::Respond(denied));
    }
    match request {
        Request::Probe(params) => {
            let action = tcping_v1(params, config);
            let next = match action {
                Action::Connect { .. } => State::Probing,
                Action::Respond(_) => State::Replied,
            };
            (next, action)
        },
        Request::Unreadable(reason) => (
            State::Replied,
            Action::Respond(validation_reply(reason.as_str())),
        ),
    }
}

/// Takes one step: decides what `event` leads to for a request in `state`.
/// Returns `None`, and decides nothing, exactly where the event has no place
/// in that state.
pub fn step(state: State, event: Event, request: &Request, config: &ApiConfig) -> (taken: Option<
    (State, Action),
>)
    ensures
        step_allows(state, event@, request@, *config, taken_view(taken)),
{
    match (state, event) {
        (State::Arrived, Event::Admission(admitted)) => Some(first_step(admitted, request, config)),
        (State::Probing, Event::Probe(outcome)) => Some(
            (State::Replied, Action::Respond(probe_reply(&outcome))),
        ),
        (State::Probing, Event::Deadline) => Some(
            (State::Replied, Action::Respond(timed_out_reply())),
        ),
        _ => None,
    }
}

/// Receives a request: asks the limiter for a token, and takes the request's
/// first step with the limiter's answer. Which answer the limiter gives is
/// its own, so the result is the first step for one of the two.
pub fn handle(limiter: &Limiter, request: &Request, config: &ApiConfig) -> (first: (State, Action))
    ensures
        step_allows(
            State::Arrived,
            EventView::Admission(true),
            request@,
            *config,
            Some((first.0, first.1@)),
        ) || step_allows(
            State::Arrived,
            EventView::Admission(false),
            request@,
            *config,
            Some((first.0, first.1@)),
        ),
{
    first_step(limiter.try_admit(), request, config)
}

/// A request that is not acceptable is never probed: whatever the limiter
/// says, its first step ends it, and where it was admitted the reply carries
/// `STATUS_BAD_REQUEST`, says that its parameters are invalid, and names
/// each parameter that is wrong. No step starts a probe for it.
pub proof fn invalid_request_is_never_probed(
    state: State,
    event: EventView,
    request: RequestView,
    config: ApiConfig,
    next: State,
    action: ActionView,
)
    requires
        !request.is_acceptable(),
        step_allows(state, event, request, config, Some((next, action))),
    ensures
        next == State::Replied,
        action is Respond,
        event == EventView::Admission(true) ==> is_validation_reply(action->Respond_0),
        event == EventView::Admission(true) ==> (request matches RequestView::Probe(params)
            ==> names_rejected_fields(params, reply_details(action->Respond_0))),
{
}

/// A probe is started only for an acceptable request that arrived and was
/// admitted, and only together with the move to `State::Probing`.
pub proof fn probe_needs_admitted_valid_request(
    state: State,
    event: EventView,
    request: RequestView,
    config: ApiConfig,
    next: State,
    action: ActionView,
)
    requires
        step_allows(state, event, request, config, Some((next, action))),
    ensures
        action is Connect <==> next == State::Probing,
        action is Connect ==> state == State::Arrived && event == EventView::Admission(true)
            && request.is_acceptable(),
{
}

/// The deadline wins: once it passes, the reply carries
/// `STATUS_REQUEST_TIMEOUT`, whatever the probe's own timeout is and
/// however the two compare, and never the status of a failed probe.
pub proof fn deadline_takes_precedence(
    request: RequestView,
    config: ApiConfig,
    taken: Option<(State, ActionView)>,
)
    requires
        step_allows(State::Probing, EventView::Deadline, request, config, taken),
    ensures
        taken == Some((State::Replied, ActionView::Respond(timed_out_reply_of()))),
        timed_out_reply_of().status == STATUS_REQUEST_TIMEOUT,
        timed_out_reply_of().status != STATUS_BAD_REQUEST,
{
}

/// Repeating an acceptable request gives the same result: where the same
/// event meets the same state, the next state and the action are the same.
pub proof fn same_request_same_step(
    state: State,
    event: EventView,
    request: RequestView,
    config: ApiConfig,
    first: Option<(State, ActionView)>,
    second: Option<(State, ActionView)>,
)
    requires
        request.is_acceptable(),
        step_allows(state, event, request, config, first),
        step_allows(state, event, request, config, second),
    ensures
        first == second,
{
}

/// Every request is answered once: a step either starts the probe, which
/// only a request that has just arrived can do, or decides the reply and
/// ends the request; after that no event is taken.
pub proof fn one_reply_per_request(
    state: State,
    event: EventView,
    request: RequestView,
    config: ApiConfig,
    taken: Option<(State, ActionView)>,
)
    requires
        step_allows(state, event, request, config, taken),
    ensures
        state == State::Replied ==> taken is None,
        taken matches Some((next, action)) ==> {
            ||| state == State::Arrived && next == State::Probing && action is Connect
            ||| next == State::Replied && action is Respond
        },
{
}

/// One step that was taken: the event, and what it led to.
pub struct Taken {
    pub event: EventView,
    pub next: State,
    pub action: ActionView,
}

/// The state in which step number `at` of a request's steps is taken: a
/// request starts as `State::Arrived`, and each step leaves it in the state
/// for the next.
pub open spec fn state_before(steps: Seq<Taken>, at: int) -> State {
    if at <= 0 {
        State::Arrived
    } else {
        steps[at - 1].next
    }
}

/// `steps` is a run of the request: what it went through from its arrival,
/// each step allowed in the state the one before left.
pub open spec fn is_run(request: RequestView, config: ApiConfig, steps: Seq<Taken>) -> bool {
    forall|at: int|
        0 <= at < steps.len() ==> step_allows(
            state_before(steps, at),
            (#[trigger] steps[at]).event,
            request,
            config,
            Some((steps[at].next, steps[at].action)),
        )
}

/// However a request runs, it takes at most two steps, is probed at most
/// once and only as its first step, and is answered at most once: with the
/// reply the run ends.
pub proof fn run_ends_with_its_only_reply(
    request: RequestView,
    config: ApiConfig,
    steps: Seq<Taken>,
)
    requires
        is_run(request, config, steps),
    ensures
        steps.len() <= 2,
        forall|at: int|
            0 <= at < steps.len() && (#[trigger] steps[at]).action is Connect ==> at == 0,
        forall|at: int|
            0 <= at < steps.len() && (#[trigger] steps[at]).action is Respond ==> at
                == steps.len() - 1,
{
    if steps.len() >= 1 {
        let first = steps[0];
        assert(state_before(steps, 0) == State::Arrived);
        if steps.len() >= 2 {
            let second = steps[1];
            assert(state_before(steps, 1) == first.next);
            assert(first.next == State::Probing);
            assert(second.next == State::Replied);
            if steps.len() >= 3 {
                let third = steps[2];
                assert(state_before(steps, 2) == State::Replied);
                assert(false);
            }
        }
    }
}

/// A request that is not acceptable is never probed and never waits: if it
/// runs at all, its run is the one step that answers it, and no step of it
/// asks for a connection.
pub proof fn unacceptable_request_runs_one_step(
    request: RequestView,
    config: ApiConfig,
    steps: Seq<Taken>,
)
    requires
        !request.is_acceptable(),
        is_run(request, config, steps),
    ensures
        steps.len() <= 1,
        forall|at: int| 0 <= at < steps.len() ==> (#[trigger] steps[at]).action is Respond,
{
    if steps.len() >= 1 {
        let first = steps[0];
        assert(state_before(steps, 0) == State::Arrived);
        assert(first.next == State::Replied);
        if steps.len() >= 2 {
            let second = steps[1];
            assert(state_before(steps, 1) == State::Replied);
            assert(false);
        }
    }
}

} // verus!
