//! The listener, as a state machine.
//!
//! The listener binds one address and then accepts connections without end.
//! Each accepted connection is handed to a handler of its own, and the
//! listener goes on accepting at once: it never waits for a handler and never
//! hears from one. A failure to bind or to accept stops it for good.

use vstd::prelude::*;

verus! {

/// The host that the listener binds.
pub const HOST: &'static str = "127.0.0.1";

/// The port that the listener binds.
pub const PORT: u16 = 8181;

/// Why a listener stopped.
#[derive(Clone, Copy, Debug, PartialEq, Eq, Structural)]
pub enum ListenerError {
    /// The address could not be bound.
    Bind,
    /// A connection could not be accepted.
    Accept,
}

/// Where a listener stands.
#[derive(Clone, Copy, Debug, PartialEq, Eq, Structural)]
pub enum ListenerState {
    /// Nothing has been asked for yet.
    Created,
    /// The address is being bound.
    Binding,
    /// The address is bound, and the next connection is awaited.
    Listening,
    /// The listener has stopped on an error. No event changes this.
    Stopped(ListenerError),
}

/// What the driver reports to a listener.
#[derive(Clone, Copy, Debug, PartialEq, Eq, Structural)]
pub enum ListenerEvent {
    /// The listener may begin.
    Started,
    /// The address is bound.
    Bound,
    /// The address could not be bound.
    BindFailed,
    /// A peer has connected.
    Connected,
    /// Accepting a connection ended in an error.
    AcceptFailed,
}

/// What a listener asks of its driver.
#[derive(Clone, Copy, Debug, PartialEq, Eq, Structural)]
pub enum ListenerAction {
    /// Bind `HOST` and `PORT`.
    Bind,
    /// Wait for the next connection.
    Accept,
    /// Hand the connection that has just been accepted to a new handler,
    /// without waiting for that handler, and wait for the next connection.
    Dispatch,
    /// Give up with this error.
    Abort(ListenerError),
    /// Nothing to do.
    Idle,
}

/// The action that a state is waiting on. It answers every event that the
/// state has no use for.
pub open spec fn owed(state: ListenerState) -> ListenerAction {
    match state {
        ListenerState::Created => ListenerAction::Idle,
        ListenerState::Binding => ListenerAction::Bind,
        ListenerState::Listening => ListenerAction::Accept,
        ListenerState::Stopped(error) => ListenerAction::Abort(error),
    }
}

/// The state that follows `state` on `event`. A pair that is not listed
/// leaves the state as it is.
pub open spec fn next_state(state: ListenerState, event: ListenerEvent) -> ListenerState {
    match (state, event) {
        (ListenerState::Created, ListenerEvent::Started) => ListenerState::Binding,
        (ListenerState::Binding, ListenerEvent::Bound) => ListenerState::Listening,
        (ListenerState::Binding, ListenerEvent::BindFailed) => ListenerState::Stopped(
            ListenerError::Bind,
        ),
        (ListenerState::Listening, ListenerEvent::Connected) => ListenerState::Listening,
        (ListenerState::Listening, ListenerEvent::AcceptFailed) => ListenerState::Stopped(
            ListenerError::Accept,
        ),
        _ => state,
    }
}

/// The action that answers `event` in `state`: `Dispatch` for a connection
/// that arrives while listening, otherwise the action that the following
/// state is waiting on.
pub open spec fn next_action(state: ListenerState, event: ListenerEvent) -> ListenerAction {
    match (state, event) {
        (ListenerState::Listening, ListenerEvent::Connected) => ListenerAction::Dispatch,
        _ => owed(next_state(state, event)),
    }
}

/// The listener. It holds where it stands and nothing else: no count of
/// connections, no record of handlers.
pub struct Listener {
    state: ListenerState,
}

impl View for Listener {
    type V = ListenerState;

    closed spec fn view(&self) -> ListenerState {
        self.state
    }
}

impl Listener {
    /// A listener that has not been started.
    pub fn new() -> (listener: Listener)
        ensures
            listener@ == ListenerState::Created,
    {
        Listener { state: ListenerState::Created }
    }

    /// Where the listener stands.
    pub fn state(&self) -> (state: ListenerState)
        ensures
            state == self@,
    {
        self.state
    }

    /// Takes `event` and answers with the action to carry out next.
    pub fn step(&mut self, event: ListenerEvent) -> (action: ListenerAction)
        ensures
            final(self)@ == next_state(old(self)@, event),
            action == next_action(old(self)@, event),
    {
        let (state, action) = match (self.state, event) {
            (ListenerState::Created, ListenerEvent::Started) => (
                ListenerState::Binding,
                ListenerAction::Bind,
            ),
            (ListenerState::Binding, ListenerEvent::Bound) => (
                ListenerState::Listening,
                ListenerAction::Accept,
            ),
            (ListenerState::Binding, ListenerEvent::BindFailed) => (
                ListenerState::Stopped(ListenerError::Bind),
                ListenerAction::Abort(ListenerError::Bind),
            ),
            (ListenerState::Listening, ListenerEvent::Connected) => (
                ListenerState::Listening,
                ListenerAction::Dispatch,
            ),
            (ListenerState::Listening, ListenerEvent::AcceptFailed) => (
                ListenerState::Stopped(ListenerError::Accept),
                ListenerAction::Abort(ListenerError::Accept),
            ),
            (ListenerState::Created, _) => (ListenerState::Created, ListenerAction::Idle),
            (ListenerState::Binding, _) => (ListenerState::Binding, ListenerAction::Bind),
            (ListenerState::Listening, _) => (ListenerState::Listening, ListenerAction::Accept),
            (ListenerState::Stopped(error), _) => (
                ListenerState::Stopped(error),
                ListenerAction::Abort(error),
            ),
        };
        self.state = state;
        action
    }
}

/// The state that a listener reaches from `state` on `events`, in order.
pub open spec fn run_from(state: ListenerState, events: Seq<ListenerEvent>) -> ListenerState
    decreases events.len(),
{
    if events.len() == 0 {
        state
    } else {
        next_state(run_from(state, events.drop_last()), events.last())
    }
}

/// However many connections arrive, one after another, a listening listener
/// answers each with `Dispatch` and is afterwards exactly what it was before:
/// nothing builds up from one connection to the next.
pub proof fn lemma_accepts_without_end(connections: nat)
    ensures
        run_from(
            ListenerState::Listening,
            Seq::new(connections, |i: int| ListenerEvent::Connected),
        ) == ListenerState::Listening,
        next_action(
            run_from(
                ListenerState::Listening,
                Seq::new(connections, |i: int| ListenerEvent::Connected),
            ),
            ListenerEvent::Connected,
        ) == ListenerAction::Dispatch,
    decreases connections,
{
    if connections > 0 {
        let events = Seq::new(connections, |i: int| ListenerEvent::Connected);
        let before = Seq::new((connections - 1) as nat, |i: int| ListenerEvent::Connected);
        lemma_accepts_without_end((connections - 1) as nat);
        assert(events.drop_last() =~= before);
    }
}

/// Once a listener has stopped, it stays stopped on the same error, and it
/// stops only where binding or accepting failed.
pub proof fn lemma_stopped_for_good(state: ListenerState, event: ListenerEvent)
    ensures
        state is Stopped ==> next_state(state, event) == state,
        next_state(state, event) is Stopped && !(state is Stopped) ==> (state is Binding && event
            is BindFailed) || (state is Listening && event is AcceptFailed),
{
}

} // verus!
