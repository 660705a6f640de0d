//! The ingestion loop of one connection, as a state machine.
//!
//! The engine does no I/O. The connection driver tells it what happened (an
//! [`Event`]) and is told what to do next (an [`Action`]): call the
//! parser, ask the abuse-detection service, consult the rate counter, run a
//! handler, write an error to the client, or end the chunk with a
//! [`SessionResult`].

use vstd::prelude::*;
use crate::batch::{push_command, Batch, RequestView};
use crate::call::{call_for, dispatch, state_after, Call, CallView};
use crate::error::{Error, ErrorView};
use crate::listener::SessionResult;
use crate::protocol::{Command, CommandView, ParseError};
use crate::state::{Mailbox, Policy, State, StateView};
use crate::validate::{
    conclude_rate_check,
    rate_conclusion,
    validate_request,
    verdict,
    RateOutcome,
    RateOutcomeView,
    Verdict,
};

verus! {

/// What the abuse-detection service said of the remote address.
#[derive(Clone, Copy, Debug, PartialEq, Eq, Structural)]
pub enum ScanReport {
    /// The address is to be banned.
    Banned,
    /// The address is in good standing.
    Clear,
    /// The service itself failed; the address counts as not banned.
    Failed,
}

/// How a handler invocation ended.
#[derive(Clone, Debug, PartialEq, Eq)]
pub enum HandlerOutcome {
    /// The handler succeeded.
    Done,
    /// The handler succeeded and logged the session in to `mailbox`.
    LoggedIn { mailbox: Mailbox },
    /// The handler failed; `detail` describes how.
    Failed { detail: String },
}

/// What the connection driver reports to the engine.
#[derive(Debug, PartialEq, Eq)]
pub enum Event {
    /// A chunk of bytes arrived from the client.
    Received,
    /// The parser was called on the chunk and returned this.
    Parsed(Result<Command, ParseError>),
    /// The abuse-detection service answered.
    Screened(ScanReport),
    /// The rate counter answered.
    RateChecked(RateOutcome),
    /// The handler returned.
    Handled(HandlerOutcome),
    /// The error was written to the client (`true`), or the transport
    /// turned out to be unusable (`false`).
    Written(bool),
}

/// The mathematical value of an [`Event`].
pub ghost enum EventView {
    Received,
    Command(CommandView),
    NeedsMoreData,
    Malformed { detail: Seq<char> },
    Screened(ScanReport),
    RateChecked(RateOutcomeView),
    Done,
    LoggedIn { mailbox: Mailbox },
    Failed { detail: Seq<char> },
    Written(bool),
}

impl View for Event {
    type V = EventView;

    open spec fn view(&self) -> EventView {
        match *self {
            Event::Received => EventView::Received,
            Event::Parsed(Ok(command)) => EventView::Command(command@),
            Event::Parsed(Err(ParseError::NeedsMoreData)) => EventView::NeedsMoreData,
            Event::Parsed(Err(ParseError::Parse { detail })) => EventView::Malformed {
                detail: detail@,
            },
            Event::Screened(report) => EventView::Screened(report),
            Event::RateChecked(outcome) => EventView::RateChecked(outcome@),
            Event::Handled(HandlerOutcome::Done) => EventView::Done,
            Event::Handled(HandlerOutcome::LoggedIn { mailbox }) => EventView::LoggedIn { mailbox },
            Event::Handled(HandlerOutcome::Failed { detail }) => EventView::Failed {
                detail: detail@,
            },
            Event::Written(sent) => EventView::Written(sent),
        }
    }
}

/// What the engine asks of the connection driver.
#[derive(Clone, Debug, PartialEq, Eq)]
pub enum Action {
    /// Call the parser on what is left of the chunk.
    Parse,
    /// Ask the abuse-detection service about the remote address.
    CheckScanner,
    /// Consult, and count against, the rate limit of `account_id`.
    CheckRate { account_id: u32 },
    /// Run a handler.
    Call(Call),
    /// Write the error to the client.
    WriteErr(Error),
    /// The chunk is done: hand this result to the listener.
    Finish(SessionResult),
}

/// The mathematical value of an [`Action`].
pub ghost enum ActionView {
    Parse,
    CheckScanner,
    CheckRate { account_id: u32 },
    Call(CallView),
    WriteErr(ErrorView),
    Finish(SessionResult),
}

impl View for Action {
    type V = ActionView;

    open spec fn view(&self) -> ActionView {
        match *self {
            Action::Parse => ActionView::Parse,
            Action::CheckScanner => ActionView::CheckScanner,
            Action::CheckRate { account_id } => ActionView::CheckRate { account_id },
            Action::Call(call) => ActionView::Call(call@),
            Action::WriteErr(error) => ActionView::WriteErr(error@),
            Action::Finish(result) => ActionView::Finish(result),
        }
    }
}

/// Where the engine stands within a chunk.
#[derive(Clone, Debug, PartialEq, Eq)]
pub enum Phase {
    /// Between two chunks.
    Idle,
    /// The parser was asked for the next unit.
    Reading,
    /// A malformed unit, described by `detail`, waits for the answer of the
    /// abuse-detection service.
    Screening { detail: String },
    /// An approved mailbox command, as `call`, waits for the rate counter.
    Limiting { call: Call },
    /// A handler runs; `outcome` is the result if it succeeds.
    Calling { outcome: SessionResult },
    /// An error is being written to the client.
    Reporting,
}

/// The mathematical value of a [`Phase`].
pub ghost enum PhaseView {
    Idle,
    Reading,
    Screening { detail: Seq<char> },
    Limiting { call: CallView },
    Calling { outcome: SessionResult },
    Reporting,
}

impl View for Phase {
    type V = PhaseView;

    open spec fn view(&self) -> PhaseView {
        match *self {
            Phase::Idle => PhaseView::Idle,
            Phase::Reading => PhaseView::Reading,
            Phase::Screening { detail } => PhaseView::Screening { detail: detail@ },
            Phase::Limiting { call } => PhaseView::Limiting { call: call@ },
            Phase::Calling { outcome } => PhaseView::Calling { outcome },
            Phase::Reporting => PhaseView::Reporting,
        }
    }
}

/// The mathematical value of a [`Session`].
pub ghost struct SessionView {
    /// The authentication state.
    pub state: StateView,
    /// Whether the transport is encrypted.
    pub is_tls: bool,
    /// The server policy.
    pub policy: Policy,
    /// Where the engine stands within the chunk.
    pub phase: PhaseView,
    /// The requests that were collected and not yet processed, the one that
    /// arrived first in front.
    pub queue: Seq<RequestView>,
}

/// Whether `event` is what a session in `phase` waits for.
pub open spec fn awaits(phase: PhaseView, event: EventView) -> bool {
    match phase {
        PhaseView::Idle => event is Received,
        PhaseView::Reading => event is Command || event is NeedsMoreData || event is Malformed,
        PhaseView::Screening { .. } => event is Screened,
        PhaseView::Limiting { .. } => event is RateChecked,
        PhaseView::Calling { .. } => event is Done || event is LoggedIn || event is Failed,
        PhaseView::Reporting => event is Written,
    }
}

/// The chunk ends with `result`: whatever still waits is dropped.
pub open spec fn finish(s: SessionView, result: SessionResult) -> (SessionView, ActionView) {
    (SessionView { phase: PhaseView::Idle, queue: Seq::empty(), ..s }, ActionView::Finish(result))
}

/// `error` goes to the client.
pub open spec fn report(s: SessionView, error: ErrorView) -> (SessionView, ActionView) {
    (SessionView { phase: PhaseView::Reporting, ..s }, ActionView::WriteErr(error))
}

/// The parser is asked for the next unit.
pub open spec fn read_on(s: SessionView) -> (SessionView, ActionView) {
    (SessionView { phase: PhaseView::Reading, ..s }, ActionView::Parse)
}

/// `call` goes to the handler layer.
pub open spec fn run(s: SessionView, call: CallView) -> (SessionView, ActionView) {
    (SessionView { phase: PhaseView::Calling { outcome: call.outcome() }, ..s }, ActionView::Call(
        call,
    ))
}

/// An approved `command` is dispatched.
pub open spec fn start(s: SessionView, command: CommandView) -> (SessionView, ActionView) {
    match call_for(s.state, command) {
        Ok(call) => run(SessionView { state: state_after(s.state, command), ..s }, call),
        Err(error) => report(s, error),
    }
}

/// The request in front of the queue is taken up; with none left, the
/// chunk ends with `Continue`.
pub open spec fn advance(s: SessionView) -> (SessionView, ActionView) {
    if s.queue.len() == 0 {
        finish(s, SessionResult::Continue)
    } else {
        let rest = SessionView { queue: s.queue.drop_first(), ..s };
        match s.queue[0] {
            Err(error) => report(rest, error),
            Ok(command) => match verdict(s.state, command.class(), s.is_tls, s.policy) {
                Verdict::Rejected(reason) => report(rest, ErrorView::Rejected(reason)),
                Verdict::Approved => start(rest, command),
                Verdict::RateCheck { account_id } => (
                    SessionView {
                        phase: PhaseView::Limiting { call: call_for(s.state, command)->Ok_0 },
                        ..rest
                    },
                    ActionView::CheckRate { account_id },
                ),
            },
        }
    }
}

/// A malformed unit, described by `detail`, takes its place in the queue.
pub open spec fn record_malformed(s: SessionView, detail: Seq<char>) -> (SessionView, ActionView) {
    read_on(SessionView { queue: s.queue.push(Err(ErrorView::Malformed { detail })), ..s })
}

/// The engine's transition: the session and the action that follow from
/// session `s` and `event`. An event that `s` does not wait for ends the
/// chunk with `Close`.
pub open spec fn step(s: SessionView, event: EventView) -> (SessionView, ActionView) {
    match (s.phase, event) {
        (PhaseView::Idle, EventView::Received) => read_on(
            SessionView { queue: Seq::empty(), ..s },
        ),
        (PhaseView::Reading, EventView::Command(command)) => read_on(
            SessionView { queue: push_command(s.queue, command), ..s },
        ),
        (PhaseView::Reading, EventView::NeedsMoreData) => advance(s),
        (PhaseView::Reading, EventView::Malformed { detail }) => if s.state is NotAuthenticated {
            (SessionView { phase: PhaseView::Screening { detail }, ..s }, ActionView::CheckScanner)
        } else {
            record_malformed(s, detail)
        },
        (PhaseView::Screening { detail }, EventView::Screened(report)) => if report
            == ScanReport::Banned {
            finish(s, SessionResult::Close)
        } else {
            record_malformed(s, detail)
        },
        (PhaseView::Limiting { call }, EventView::RateChecked(outcome)) => match rate_conclusion(
            outcome,
        ) {
            None => run(s, call),
            Some(error) => report(s, error),
        },
        (PhaseView::Calling { outcome }, EventView::Done) => settle(s, outcome),
        (PhaseView::Calling { outcome }, EventView::LoggedIn { mailbox }) => settle(
            SessionView { state: StateView::Authenticated { mailbox }, ..s },
            outcome,
        ),
        (PhaseView::Calling { .. }, EventView::Failed { detail }) => report(
            s,
            ErrorView::Service { detail },
        ),
        (PhaseView::Reporting, EventView::Written(sent)) => if sent {
            advance(s)
        } else {
            finish(s, SessionResult::Close)
        },
        _ => finish(s, SessionResult::Close),
    }
}

/// A handler succeeded with `outcome`: on `Continue` the next request is
/// taken up, on anything else the chunk ends there.
pub open spec fn settle(s: SessionView, outcome: SessionResult) -> (SessionView, ActionView) {
    if outcome == SessionResult::Continue {
        advance(s)
    } else {
        finish(s, outcome)
    }
}

/// The engine of one connection.
pub struct Session {
    state: State,
    is_tls: bool,
    policy: Policy,
    phase: Phase,
    queue: Batch,
}

impl View for Session {
    type V = SessionView;

    closed spec fn view(&self) -> SessionView {
        SessionView {
            state: self.state@,
            is_tls: self.is_tls,
            policy: self.policy,
            phase: self.phase@,
            queue: self.queue@,
        }
    }
}

impl Session {
    /// An idle session in `state`, over a transport that is encrypted or
    /// not, under `policy`.
    pub fn new(state: State, is_tls: bool, policy: Policy) -> (session: Session)
        ensures
            session@ == (SessionView {
                state: state@,
                is_tls,
                policy,
                phase: PhaseView::Idle,
                queue: Seq::empty(),
            }),
    {
        Session { state, is_tls, policy, phase: Phase::Idle, queue: Batch::new() }
    }

    /// The authentication state.
    pub fn state(&self) -> (state: &State)
        ensures
            state@ == self@.state,
    {
        &self.state
    }

    /// Whether the transport is encrypted.
    pub fn is_tls(&self) -> (r: bool)
        ensures
            r == self@.is_tls,
    {
        self.is_tls
    }

    /// The server policy.
    pub fn policy(&self) -> (policy: Policy)
        ensures
            policy == self@.policy,
    {
        self.policy
    }

    /// Whether the session stands between two chunks.
    pub fn is_idle(&self) -> (r: bool)
        ensures
            r == (self@.phase is Idle),
    {
        match self.phase {
            Phase::Idle => true,
            _ => false,
        }
    }

    /// The number of requests that were collected and not yet processed.
    pub fn pending(&self) -> (n: usize)
        ensures
            n == self@.queue.len(),
    {
        self.queue.len()
    }

    /// Gives the state back, for a session over the upgraded transport.
    pub fn into_state(self) -> (state: State)
        ensures
            state@ == self@.state,
    {
        self.state
    }

    /// Whether `event` is what the session waits for.
    pub fn expects(&self, event: &Event) -> (r: bool)
        ensures
            r == awaits(self@.phase, event@),
    {
        match (&self.phase, event) {
            (Phase::Idle, Event::Received) => true,
            (Phase::Reading, Event::Parsed(_)) => true,
            (Phase::Screening { .. }, Event::Screened(_)) => true,
            (Phase::Limiting { .. }, Event::RateChecked(_)) => true,
            (Phase::Calling { .. }, Event::Handled(_)) => true,
            (Phase::Reporting, Event::Written(_)) => true,
            _ => false,
        }
    }

    /// Judges `command` against the session as it stands. The session is
    /// not changed.
    pub fn validate_request(&self, command: &Command) -> (v: Verdict)
        ensures
            v == verdict(self@.state, command@.class(), self@.is_tls, self@.policy),
    {
        validate_request(&self.state, command, self.is_tls, self.policy)
    }

    /// Takes one event from the connection driver and answers with what
    /// the driver is to do next.
    ///
    /// A chunk starts with [`Event::Received`] and is over when the answer
    /// is [`Action::Finish`]; every answer in between names the one thing
    /// whose result the next event reports. An event out of turn ends the
    /// chunk with `Close`.
    pub fn ingest(&mut self, event: Event) -> (action: Action)
        ensures
            final(self)@ == step(old(self)@, event@).0,
            action@ == step(old(self)@, event@).1,
    {
        let mut phase = Phase::Idle;
        std::mem::swap(&mut self.phase, &mut phase);
        match (phase, event) {
            (Phase::Idle, Event::Received) => {
                self.queue.clear();
                self.read_on()
            },
            (Phase::Reading, Event::Parsed(Ok(command))) => {
                self.queue.push(command);
                self.read_on()
            },
            (Phase::Reading, Event::Parsed(Err(ParseError::NeedsMoreData))) => self.advance(),
            (Phase::Reading, Event::Parsed(Err(ParseError::Parse { detail }))) => {
                if self.state.is_authenticated() {
                    self.record_malformed(detail)
                } else {
                    self.phase = Phase::Screening { detail };
                    Action::CheckScanner
                }
            },
            (Phase::Screening { detail }, Event::Screened(report)) => {
                match report {
                    ScanReport::Banned => self.finish(SessionResult::Close),
                    _ => self.record_malformed(detail),
                }
            },
            (Phase::Limiting { call }, Event::RateChecked(outcome)) => {
                match conclude_rate_check(outcome) {
                    Ok(()) => self.run(call),
                    Err(error) => self.report(error),
                }
            },
            (Phase::Calling { outcome }, Event::Handled(HandlerOutcome::Done)) => self.settle(
                outcome,
            ),
            (Phase::Calling { outcome }, Event::Handled(HandlerOutcome::LoggedIn { mailbox })) => {
                self.state = State::Authenticated { mailbox };
                self.settle(outcome)
            },
            (Phase::Calling { .. }, Event::Handled(HandlerOutcome::Failed { detail })) => {
                self.report(Error::Service { detail })
            },
            (Phase::Reporting, Event::Written(sent)) => {
                if sent {
                    self.advance()
                } else {
                    self.finish(SessionResult::Close)
                }
            },
            _ => self.finish(SessionResult::Close),
        }
    }

    fn read_on(&mut self) -> (action: Action)
        ensures
            final(self)@ == read_on(old(self)@).0,
            action@ == read_on(old(self)@).1,
    {
        self.phase = Phase::Reading;
        Action::Parse
    }

    fn record_malformed(&mut self, detail: String) -> (action: Action)
        ensures
            final(self)@ == record_malformed(old(self)@, detail@).0,
            action@ == record_malformed(old(self)@, detail@).1,
    {
        self.queue.push_error(Error::Malformed { detail });
        self.read_on()
    }

    fn finish(&mut self, result: SessionResult) -> (action: Action)
        ensures
            final(self)@ == finish(old(self)@, result).0,
            action@ == finish(old(self)@, result).1,
    {
        self.queue.clear();
        self.phase = Phase::Idle;
        Action::Finish(result)
    }

    fn report(&mut self, error: Error) -> (action: Action)
        ensures
            final(self)@ == report(old(self)@, error@).0,
            action@ == report(old(self)@, error@).1,
    {
        self.phase = Phase::Reporting;
        Action::WriteErr(error)
    }

    fn run(&mut self, call: Call) -> (action: Action)
        ensures
            final(self)@ == run(old(self)@, call@).0,
            action@ == run(old(self)@, call@).1,
    {
        self.phase = Phase::Calling { outcome: call.outcome() };
        Action::Call(call)
    }

    fn settle(&mut self, outcome: SessionResult) -> (action: Action)
        ensures
            final(self)@ == settle(old(self)@, outcome).0,
            action@ == settle(old(self)@, outcome).1,
    {
        if outcome.ends_chunk() {
            self.finish(outcome)
        } else {
            self.advance()
        }
    }

    fn advance(&mut self) -> (action: Action)
        ensures
            final(self)@ == advance(old(self)@).0,
            action@ == advance(old(self)@).1,
    {
        match self.queue.next() {
            None => self.finish(SessionResult::Continue),
            Some(Err(error)) => self.report(error),
            Some(Ok(command)) => {
                match validate_request(&self.state, &command, self.is_tls, self.policy) {
                    Verdict::Rejected(reason) => self.report(Error::Rejected(reason)),
                    Verdict::Approved => {
                        match dispatch(&mut self.state, command) {
                            Ok(call) => self.run(call),
                            Err(error) => self.report(error),
                        }
                    },
                    Verdict::RateCheck { account_id } => {
                        match dispatch(&mut self.state, command) {
                            Ok(call) => {
                                self.phase = Phase::Limiting { call };
                                Action::CheckRate { account_id }
                            },
                            Err(error) => self.report(error),
                        }
                    },
                }
            },
        }
    }
}

} // verus!
