//! A run: a list of calls sent to the service one after the other, each
//! repeated after a pause until the service accepts it.
//!
//! The run itself sends nothing and never sleeps. Its caller hands it an
//! event, the run moves to its next state and says what to do: send a
//! request, pause, or stop. Each call goes through the phases pending, in
//! flight, and then succeeded or retrying; from retrying it is in flight
//! again once the pause is over. No call is ever given up.

use crate::client::{request_of, MegaverseApiClient};
use crate::error::ApiError;
use crate::object_type::icon;
use crate::plan::{valid_call, Call, Verb};
use crate::request::{accepted, failure_detail, Reply, Request, RequestView};
use crate::text::{decimal, decimal_digits};
use vstd::prelude::*;
use vstd::string::*;

verus! {

/// The pause between two attempts on one call, in seconds.
pub const BACKOFF_SECONDS: u64 = 1;

/// Where a run stands with the call at its position.
#[derive(Debug, Clone, Copy, PartialEq, Eq, Structural)]
pub enum Phase {
    /// Nothing was sent yet.
    Pending,
    /// The request of the call is out and its reply is awaited.
    InFlight,
    /// The last attempt failed and the pause before the next one runs.
    Retrying,
    /// Every call of the run was accepted.
    Succeeded,
}

/// What the caller reports to a run.
#[derive(Debug, Clone, PartialEq, Eq)]
pub enum Event {
    /// The run may begin.
    Start,
    /// The request that was sent came back with this reply.
    Replied(Reply),
    /// The pause is over.
    BackoffElapsed,
}

/// The record of one attempt on a call, for the log.
#[derive(Debug, Clone, PartialEq, Eq)]
pub struct Attempt {
    pub call: Call,
    pub succeeded: bool,
    /// The status code of the answer; none where the request failed in
    /// transit.
    pub status: Option<u16>,
    /// What the service or the transport said of a failure; empty after a
    /// success.
    pub detail: String,
}

/// An attempt as plain values.
pub struct AttemptView {
    pub call: Call,
    pub succeeded: bool,
    pub status: Option<u16>,
    pub detail: Seq<char>,
}

impl View for Attempt {
    type V = AttemptView;

    open spec fn view(&self) -> AttemptView {
        AttemptView {
            call: self.call,
            succeeded: self.succeeded,
            status: self.status,
            detail: self.detail@,
        }
    }
}

/// The words that open the log line of an attempt.
pub open spec fn attempt_opening(attempt: AttemptView) -> Seq<char> {
    if attempt.succeeded {
        match attempt.call.verb {
            Verb::Create => "Successfully created "@,
            Verb::Delete => "Successfully deleted "@,
        }
    } else if attempt.status is Some {
        match attempt.call.verb {
            Verb::Create => "Failed to create "@,
            Verb::Delete => "Failed to delete "@,
        }
    } else {
        match attempt.call.verb {
            Verb::Create => "Error creating "@,
            Verb::Delete => "Error deleting "@,
        }
    }
}

/// The log line of an attempt: what was tried, on which object, at which
/// position, and for a failure what was said of it.
pub open spec fn attempt_message(attempt: AttemptView) -> Seq<char> {
    let place = attempt_opening(attempt) + icon(attempt.call.object) + " at ("@ + decimal_digits(
        attempt.call.row as nat,
    ) + ", "@ + decimal_digits(attempt.call.column as nat) + ")"@;
    if attempt.succeeded {
        place
    } else {
        place + ": "@ + attempt.detail + ". Retrying..."@
    }
}

impl Attempt {
    /// The log line of the attempt.
    pub fn message(&self) -> (r: String)
        ensures
            r@ == attempt_message(self@),
    {
        let opening = if self.succeeded {
            match self.call.verb {
                Verb::Create => "Successfully created ",
                Verb::Delete => "Successfully deleted ",
            }
        } else if self.status.is_some() {
            match self.call.verb {
                Verb::Create => "Failed to create ",
                Verb::Delete => "Failed to delete ",
            }
        } else {
            match self.call.verb {
                Verb::Create => "Error creating ",
                Verb::Delete => "Error deleting ",
            }
        };
        let mut text = String::from_str(opening);
        text.append(self.call.object.render());
        text.append(" at (");
        text.append(decimal(self.call.row).as_str());
        text.append(", ");
        text.append(decimal(self.call.column).as_str());
        text.append(")");
        if !self.succeeded {
            text.append(": ");
            text.append(self.detail.as_str());
            text.append(". Retrying...");
        }
        text
    }
}

/// What the caller is to do next.
#[derive(Debug, Clone, PartialEq, Eq)]
pub enum Action {
    /// Send the request and report the reply.
    Send(Request),
    /// Pause for so many seconds and report that the pause is over.
    Backoff { seconds: u64 },
    /// Stop: the run is complete.
    Finish,
    /// Nothing: the event did not fit the state of the run.
    Nothing,
}

/// An action as plain values.
pub enum ActionView {
    Send(RequestView),
    Backoff { seconds: u64 },
    Finish,
    Nothing,
}

impl View for Action {
    type V = ActionView;

    open spec fn view(&self) -> ActionView {
        match self {
            Action::Send(request) => ActionView::Send(request@),
            Action::Backoff { seconds } => ActionView::Backoff { seconds: *seconds },
            Action::Finish => ActionView::Finish,
            Action::Nothing => ActionView::Nothing,
        }
    }
}

/// The answer of a run to an event: the attempt to log, where the event
/// closed one, and the next action.
#[derive(Debug, Clone, PartialEq, Eq)]
pub struct Step {
    pub log: Option<Attempt>,
    pub action: Action,
}

/// A step as plain values.
pub struct StepView {
    pub log: Option<AttemptView>,
    pub action: ActionView,
}

impl View for Step {
    type V = StepView;

    open spec fn view(&self) -> StepView {
        StepView {
            log: match self.log {
                Some(attempt) => Some(attempt@),
                None => None,
            },
            action: self.action@,
        }
    }
}

/// The state of a run: its calls, how many of them were accepted, and the
/// phase of the call that comes next.
pub struct RunState {
    pub calls: Seq<Call>,
    pub position: nat,
    pub phase: Phase,
}

/// The states a run can be in: every call is valid, a call that is in
/// flight or retried exists, and a run that succeeded has no call left.
pub open spec fn well_formed(state: RunState) -> bool {
    &&& state.position <= state.calls.len()
    &&& forall|k: int| 0 <= k < state.calls.len() ==> valid_call(#[trigger] state.calls[k])
    &&& (state.phase == Phase::InFlight || state.phase == Phase::Retrying) ==> state.position
        < state.calls.len()
    &&& state.phase == Phase::Succeeded ==> state.position == state.calls.len()
}

/// The record of the attempt that a reply closes.
pub open spec fn attempt_of(call: Call, reply: Reply) -> AttemptView {
    AttemptView {
        call,
        succeeded: accepted(reply),
        status: match reply {
            Reply::Status { code, .. } => Some(code),
            Reply::Failed { .. } => None,
        },
        detail: if accepted(reply) {
            Seq::empty()
        } else {
            failure_detail(reply)
        },
    }
}

/// The state after an event. A pending run starts with its first call, or
/// has succeeded at once where it has none. A reply of success moves on to
/// the next call; any other reply leads to a pause, after which the same
/// call is in flight again. An event that does not fit the phase changes
/// nothing.
pub open spec fn advance(state: RunState, event: Event) -> RunState {
    match (state.phase, event) {
        (Phase::Pending, Event::Start) => RunState {
            phase: if state.position < state.calls.len() {
                Phase::InFlight
            } else {
                Phase::Succeeded
            },
            ..state
        },
        (Phase::InFlight, Event::Replied(reply)) => if accepted(reply) {
            RunState {
                position: state.position + 1,
                phase: if state.position + 1 < state.calls.len() {
                    Phase::InFlight
                } else {
                    Phase::Succeeded
                },
                ..state
            }
        } else {
            RunState { phase: Phase::Retrying, ..state }
        },
        (Phase::Retrying, Event::BackoffElapsed) => RunState { phase: Phase::InFlight, ..state },
        _ => state,
    }
}

/// What a run in flight does next: it sends the request of the call at its
/// position, or finishes where it has succeeded.
pub open spec fn next_action(base: Seq<char>, candidate: Seq<char>, state: RunState) -> ActionView {
    if state.position < state.calls.len() {
        ActionView::Send(request_of(base, candidate, state.calls[state.position as int]))
    } else {
        ActionView::Finish
    }
}

/// The answer of a run to an event.
pub open spec fn effect(
    base: Seq<char>,
    candidate: Seq<char>,
    state: RunState,
    event: Event,
) -> StepView {
    match (state.phase, event) {
        (Phase::Pending, Event::Start) => StepView {
            log: None,
            action: next_action(base, candidate, advance(state, event)),
        },
        (Phase::InFlight, Event::Replied(reply)) => StepView {
            log: Some(attempt_of(state.calls[state.position as int], reply)),
            action: if accepted(reply) {
                next_action(base, candidate, advance(state, event))
            } else {
                ActionView::Backoff { seconds: BACKOFF_SECONDS }
            },
        },
        (Phase::Retrying, Event::BackoffElapsed) => StepView {
            log: None,
            action: next_action(base, candidate, advance(state, event)),
        },
        _ => StepView { log: None, action: ActionView::Nothing },
    }
}

/// How far a run has come: the number of calls accepted, and the phase of
/// the call that comes next.
#[derive(Debug, Clone, Copy, PartialEq, Eq, Structural)]
struct Progress {
    position: usize,
    phase: Phase,
}

/// A run of calls against the service of one client.
#[derive(Debug)]
pub struct Run {
    client: MegaverseApiClient,
    calls: Vec<Call>,
    progress: Progress,
}

impl View for Run {
    type V = RunState;

    closed spec fn view(&self) -> RunState {
        RunState {
            calls: self.calls@,
            position: self.progress.position as nat,
            phase: self.progress.phase,
        }
    }
}

impl Run {
    #[verifier::type_invariant]
    closed spec fn inv(&self) -> bool {
        well_formed(self@)
    }

    /// The address of the service that the run's requests go to.
    pub closed spec fn base(&self) -> Seq<char> {
        self.client.base()
    }

    /// The candidate on whose map the run works.
    pub closed spec fn candidate(&self) -> Seq<char> {
        self.client.candidate()
    }

    /// A pending run of the given calls, or [`ApiError::UnsupportedKind`]
    /// where one of them is not valid.
    pub fn new(client: MegaverseApiClient, calls: Vec<Call>) -> (r: Result<Run, ApiError>)
        ensures
            match r {
                Ok(run) => {
                    &&& forall|k: int| 0 <= k < calls@.len() ==> valid_call(#[trigger] calls@[k])
                    &&& run@ == (RunState { calls: calls@, position: 0, phase: Phase::Pending })
                    &&& run.base() == client.base()
                    &&& run.candidate() == client.candidate()
                },
                Err(error) => {
                    &&& exists|k: int| 0 <= k < calls@.len() && !valid_call(#[trigger] calls@[k])
                    &&& error == ApiError::UnsupportedKind
                },
            },
    {
        let mut k: usize = 0;
        while k < calls.len()
            invariant
                k <= calls.len(),
                forall|i: int| 0 <= i < k ==> valid_call(#[trigger] calls@[i]),
            decreases calls.len() - k,
        {
            let call = calls[k];
            let valid = match call.verb {
                Verb::Create => call.object.is_creatable(),
                Verb::Delete => call.object.is_deletable(),
            };
            if !valid {
                return Err(ApiError::UnsupportedKind);
            }
            k += 1;
        }
        Ok(Run { client, calls, progress: Progress { position: 0, phase: Phase::Pending } })
    }

    /// A pending run of calls that are known to be valid.
    pub(crate) fn assemble(client: MegaverseApiClient, calls: Vec<Call>) -> (run: Run)
        requires
            forall|k: int| 0 <= k < calls@.len() ==> valid_call(#[trigger] calls@[k]),
        ensures
            run@ == (RunState { calls: calls@, position: 0, phase: Phase::Pending }),
            run.base() == client.base(),
            run.candidate() == client.candidate(),
    {
        Run { client, calls, progress: Progress { position: 0, phase: Phase::Pending } }
    }

    /// The phase of the run.
    pub fn phase(&self) -> (phase: Phase)
        ensures
            phase == self@.phase,
    {
        self.progress.phase
    }

    /// How many calls of the run were accepted so far.
    pub fn position(&self) -> (position: usize)
        ensures
            position == self@.position,
    {
        self.progress.position
    }

    /// The calls of the run, in the order in which they are sent.
    pub fn calls(&self) -> (calls: &Vec<Call>)
        ensures
            calls@ == self@.calls,
    {
        &self.calls
    }

    /// Whether every call of the run was accepted.
    pub fn is_finished(&self) -> (finished: bool)
        ensures
            finished == (self@.phase == Phase::Succeeded),
    {
        match self.progress.phase {
            Phase::Succeeded => true,
            _ => false,
        }
    }

    /// The action of a run that is in flight or has succeeded.
    fn action(&self) -> (action: Action)
        ensures
            action@ == next_action(self.base(), self.candidate(), self@),
    {
        proof {
            use_type_invariant(self);
        }
        if self.progress.position < self.calls.len() {
            match self.client.request_for(&self.calls[self.progress.position]) {
                Ok(request) => Action::Send(request),
                Err(_) => Action::Nothing,
            }
        } else {
            Action::Finish
        }
    }

    /// Takes an event, moves to the next state and says what to do next.
    pub fn step(&mut self, event: Event) -> (step: Step)
        ensures
            final(self)@ == advance(old(self)@, event),
            final(self).base() == old(self).base(),
            final(self).candidate() == old(self).candidate(),
            step@ == effect(old(self).base(), old(self).candidate(), old(self)@, event),
    {
        proof {
            use_type_invariant(&*self);
        }
        let position = self.progress.position;
        match (self.progress.phase, event) {
            (Phase::Pending, Event::Start) => {
                let phase = if position < self.calls.len() {
                    Phase::InFlight
                } else {
                    Phase::Succeeded
                };
                self.progress = Progress { position, phase };
                Step { log: None, action: self.action() }
            },
            (Phase::InFlight, Event::Replied(reply)) => {
                assert(position < self.calls.len());
                let call = self.calls[position];
                let verdict = reply.verdict();
                let (status, detail) = match reply {
                    Reply::Status { code, body } => (Some(code), body),
                    Reply::Failed { detail } => (None, detail),
                };
                match verdict {
                    Ok(()) => {
                        let phase = if position + 1 < self.calls.len() {
                            Phase::InFlight
                        } else {
                            Phase::Succeeded
                        };
                        self.progress = Progress { position: position + 1, phase };
                        let log = Attempt { call, succeeded: true, status, detail: String::new() };
                        Step { log: Some(log), action: self.action() }
                    },
                    Err(_) => {
                        self.progress = Progress { position, phase: Phase::Retrying };
                        let log = Attempt { call, succeeded: false, status, detail };
                        Step {
                            log: Some(log),
                            action: Action::Backoff { seconds: BACKOFF_SECONDS },
                        }
                    },
                }
            },
            (Phase::Retrying, Event::BackoffElapsed) => {
                self.progress = Progress { position, phase: Phase::InFlight };
                Step { log: None, action: self.action() }
            },
            _ => Step { log: None, action: Action::Nothing },
        }
    }
}

/// What a run makes of a series of replies: the state it reaches, the
/// actions it asks for, and the attempts it logs, in order.
pub struct Trace {
    pub state: RunState,
    pub actions: Seq<ActionView>,
    pub logs: Seq<AttemptView>,
}

/// Follows a run that is in flight through a series of replies, as its
/// caller does: each reply is reported; where the run then asks for a
/// pause, the end of the pause is reported too, before the next reply.
/// Replies that are left when the run has succeeded are not looked at.
pub open spec fn drive(
    base: Seq<char>,
    candidate: Seq<char>,
    state: RunState,
    replies: Seq<Reply>,
) -> Trace
    decreases replies.len(),
{
    if replies.len() == 0 || state.phase != Phase::InFlight {
        Trace { state, actions: Seq::empty(), logs: Seq::empty() }
    } else {
        let reported = Event::Replied(replies[0]);
        let answer = effect(base, candidate, state, reported);
        let after = advance(state, reported);
        if after.phase == Phase::Retrying {
            let wake = effect(base, candidate, after, Event::BackoffElapsed);
            let resumed = advance(after, Event::BackoffElapsed);
            let rest = drive(base, candidate, resumed, replies.drop_first());
            Trace {
                state: rest.state,
                actions: seq![answer.action, wake.action] + rest.actions,
                logs: seq![answer.log.unwrap()] + rest.logs,
            }
        } else {
            let rest = drive(base, candidate, after, replies.drop_first());
            Trace {
                state: rest.state,
                actions: seq![answer.action] + rest.actions,
                logs: seq![answer.log.unwrap()] + rest.logs,
            }
        }
    }
}

/// Whatever the event, a run stays in one of the states a run can be in,
/// keeps its calls, and never goes back to a call that was accepted.
pub proof fn lemma_advance_keeps_well_formed(state: RunState, event: Event)
    requires
        well_formed(state),
    ensures
        well_formed(advance(state, event)),
        advance(state, event).calls == state.calls,
        advance(state, event).position >= state.position,
{
}

/// A run without calls sends nothing: at its start it has succeeded and
/// asks its caller to stop.
pub proof fn lemma_empty_run_sends_nothing(base: Seq<char>, candidate: Seq<char>, state: RunState)
    requires
        well_formed(state),
        state.phase == Phase::Pending,
        state.position == state.calls.len(),
    ensures
        advance(state, Event::Start).phase == Phase::Succeeded,
        effect(base, candidate, state, Event::Start).action == ActionView::Finish,
        effect(base, candidate, state, Event::Start).log is None,
{
}

/// A run with a call left begins by sending the request of that call.
pub proof fn lemma_start_sends_first_call(base: Seq<char>, candidate: Seq<char>, state: RunState)
    requires
        well_formed(state),
        state.phase == Phase::Pending,
        state.position < state.calls.len(),
    ensures
        advance(state, Event::Start).phase == Phase::InFlight,
        advance(state, Event::Start).position == state.position,
        effect(base, candidate, state, Event::Start).action == ActionView::Send(
            request_of(base, candidate, state.calls[state.position as int]),
        ),
{
}

/// A call is repeated until it is accepted, and then it is done with.
/// Where the replies to a call in flight are failures but for the last,
/// which is a success, every failure is logged and followed by one pause
/// of [`BACKOFF_SECONDS`] and by the same request again; the success is
/// logged once, the run moves on by one call, and it asks for the request
/// of the next call, or to stop where none is left. So a call that fails
/// `n` times is sent `n + 1` times and succeeds exactly once.
pub proof fn lemma_retried_until_accepted(
    base: Seq<char>,
    candidate: Seq<char>,
    state: RunState,
    replies: Seq<Reply>,
)
    requires
        well_formed(state),
        state.phase == Phase::InFlight,
        replies.len() >= 1,
        forall|i: int| 0 <= i < replies.len() - 1 ==> !accepted(#[trigger] replies[i]),
        accepted(replies.last()),
    ensures
        ({
            let trace = drive(base, candidate, state, replies);
            let call = state.calls[state.position as int];
            let failures = replies.len() - 1;
            &&& well_formed(trace.state)
            &&& trace.state.calls == state.calls
            &&& trace.state.position == state.position + 1
            &&& trace.state.phase != Phase::Retrying
            &&& trace.logs.len() == failures + 1
            &&& forall|i: int|
                0 <= i <= failures ==> #[trigger] trace.logs[i] == attempt_of(call, replies[i])
            &&& forall|i: int| 0 <= i < failures ==> !(#[trigger] trace.logs[i]).succeeded
            &&& trace.logs[failures].succeeded
            &&& trace.actions.len() == 2 * failures + 1
            &&& forall|j: int|
                0 <= j < 2 * failures ==> #[trigger] trace.actions[j] == if j % 2 == 0 {
                    ActionView::Backoff { seconds: BACKOFF_SECONDS }
                } else {
                    ActionView::Send(request_of(base, candidate, call))
                }
            &&& trace.actions[2 * failures] == next_action(base, candidate, trace.state)
        }),
    decreases replies.len(),
{
    let trace = drive(base, candidate, state, replies);
    let call = state.calls[state.position as int];
    let reported = Event::Replied(replies[0]);
    let answer = effect(base, candidate, state, reported);
    let after = advance(state, reported);
    if replies.len() == 1 {
        assert(replies[0] == replies.last());
        let rest = drive(base, candidate, after, replies.drop_first());
        assert(rest.actions.len() == 0 && rest.logs.len() == 0);
        assert(trace.actions =~= seq![answer.action]);
        assert(trace.logs =~= seq![answer.log.unwrap()]);
    } else {
        assert(!accepted(replies[0]));
        let wake = effect(base, candidate, after, Event::BackoffElapsed);
        let resumed = advance(after, Event::BackoffElapsed);
        let later = replies.drop_first();
        let rest = drive(base, candidate, resumed, later);
        assert(later.last() == replies.last());
        assert forall|i: int| 0 <= i < later.len() - 1 implies !accepted(#[trigger] later[i]) by {
            assert(later[i] == replies[i + 1]);
        }
        lemma_retried_until_accepted(base, candidate, resumed, later);
        assert(trace.actions == seq![answer.action, wake.action] + rest.actions);
        assert(trace.logs == seq![answer.log.unwrap()] + rest.logs);
        let failures = replies.len() - 1;
        assert forall|i: int| 0 <= i <= failures implies #[trigger] trace.logs[i] == attempt_of(
            call,
            replies[i],
        ) by {
            if i > 0 {
                assert(trace.logs[i] == rest.logs[i - 1]);
                assert(later[i - 1] == replies[i]);
            }
        }
        assert forall|j: int| 0 <= j < 2 * failures implies #[trigger] trace.actions[j] == if j
            % 2 == 0 {
            ActionView::Backoff { seconds: BACKOFF_SECONDS }
        } else {
            ActionView::Send(request_of(base, candidate, call))
        } by {
            if j >= 2 {
                assert(trace.actions[j] == rest.actions[j - 2]);
                assert((j - 2) % 2 == j % 2);
            }
        }
        assert(trace.actions[2 * failures] == rest.actions[2 * failures - 2]);
    }
}

/// Where the service accepts every call at once, each call is sent exactly
/// once, in the order of the plan, and the run succeeds: after the reply to
/// the one call comes the request of the next, and after the last reply the
/// run asks to stop.
pub proof fn lemma_accepted_run_sends_each_call_once(
    base: Seq<char>,
    candidate: Seq<char>,
    state: RunState,
    replies: Seq<Reply>,
)
    requires
        well_formed(state),
        state.phase == Phase::InFlight,
        replies.len() == state.calls.len() - state.position,
        forall|i: int| 0 <= i < replies.len() ==> accepted(#[trigger] replies[i]),
    ensures
        ({
            let trace = drive(base, candidate, state, replies);
            &&& trace.state.calls == state.calls
            &&& trace.state.position == state.calls.len()
            &&& trace.state.phase == Phase::Succeeded
            &&& trace.logs.len() == replies.len()
            &&& forall|i: int|
                0 <= i < replies.len() ==> #[trigger] trace.logs[i] == attempt_of(
                    state.calls[state.position + i],
                    replies[i],
                )
            &&& trace.actions.len() == replies.len()
            &&& forall|i: int|
                0 <= i < replies.len() - 1 ==> #[trigger] trace.actions[i] == ActionView::Send(
                    request_of(base, candidate, state.calls[state.position + i + 1]),
                )
            &&& trace.actions[replies.len() - 1] == ActionView::Finish
        }),
    decreases replies.len(),
{
    let trace = drive(base, candidate, state, replies);
    let reported = Event::Replied(replies[0]);
    let answer = effect(base, candidate, state, reported);
    let after = advance(state, reported);
    let later = replies.drop_first();
    let rest = drive(base, candidate, after, later);
    assert(accepted(replies[0]));
    assert(trace.actions == seq![answer.action] + rest.actions);
    assert(trace.logs == seq![answer.log.unwrap()] + rest.logs);
    if replies.len() == 1 {
        assert(rest.actions.len() == 0 && rest.logs.len() == 0);
    } else {
        assert forall|i: int| 0 <= i < later.len() implies accepted(#[trigger] later[i]) by {
            assert(later[i] == replies[i + 1]);
        }
        lemma_accepted_run_sends_each_call_once(base, candidate, after, later);
        assert forall|i: int| 0 <= i < replies.len() implies #[trigger] trace.logs[i]
            == attempt_of(state.calls[state.position + i], replies[i]) by {
            if i > 0 {
                assert(trace.logs[i] == rest.logs[i - 1]);
                assert(later[i - 1] == replies[i]);
            }
        }
        assert forall|i: int| 0 <= i < replies.len() - 1 implies #[trigger] trace.actions[i]
            == ActionView::Send(
            request_of(base, candidate, state.calls[state.position + i + 1]),
        ) by {
            if i > 0 {
                assert(trace.actions[i] == rest.actions[i - 1]);
            }
        }
        assert(trace.actions[replies.len() - 1] == rest.actions[replies.len() - 2]);
    }
}

} // verus!
