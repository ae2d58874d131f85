//! The handler of one connection, as a state machine.
//!
//! A handler owns one accepted connection. It never touches the connection
//! itself: it answers each event with the action that its driver has to carry
//! out, and the driver reports the outcome as the next event. The path of a
//! handler is `Accepted`, `Writing`, `Flushed`, `Closed`; an input/output
//! error in `Writing` or `Flushed` leads to `Failed`, and from there to
//! `Closed`.

use crate::response::{response, response_bytes};
use vstd::prelude::*;
use vstd::slice::slice_subrange;

verus! {

/// Why a handler gave up.
#[derive(Clone, Copy, Debug, PartialEq, Eq, Structural)]
pub enum HandlerError {
    /// The transport refused bytes of the response or took none of them.
    Write,
    /// The transport could not push the written bytes out.
    Flush,
}

/// Where a handler stands.
#[derive(Clone, Copy, Debug, PartialEq, Eq, Structural)]
pub enum HandlerState {
    /// The connection has been handed over; nothing has been asked of it.
    Accepted,
    /// The first `sent` bytes of the response are with the transport, the
    /// rest is on offer.
    Writing { sent: usize },
    /// The whole response is with the transport, and a flush has been asked
    /// for.
    Flushed,
    /// The connection is released. No further event changes this.
    Closed,
    /// An input/output error ended the work; the connection is still to be
    /// released.
    Failed(HandlerError),
}

/// What the driver reports to a handler.
#[derive(Clone, Copy, Debug, PartialEq, Eq, Structural)]
pub enum HandlerEvent {
    /// The handler has been dispatched and may begin.
    Started,
    /// The transport took this many bytes from the front of the chunk on
    /// offer.
    Wrote(usize),
    /// The write ended in an error; no byte of the chunk was taken.
    WriteFailed,
    /// The flush is complete.
    FlushDone,
    /// The flush ended in an error.
    FlushFailed,
    /// The connection has been released.
    Released,
}

/// What a handler asks of its driver.
#[derive(Clone, Copy, Debug, PartialEq, Eq, Structural)]
pub enum HandlerAction {
    /// Offer the response from byte `from` on to the transport, once.
    Write { from: usize },
    /// Flush the transport.
    Flush,
    /// Release the connection: the response has been delivered.
    Close,
    /// Give up with this error and release the connection.
    Abort(HandlerError),
    /// Nothing to do.
    Idle,
}

/// The number of bytes that a handler has to deliver.
pub open spec fn response_len() -> nat {
    response_bytes().len()
}

/// The action that a state is waiting on. It answers every event that the
/// state has no use for.
pub open spec fn owed(state: HandlerState) -> HandlerAction {
    match state {
        HandlerState::Accepted => HandlerAction::Idle,
        HandlerState::Writing { sent } => HandlerAction::Write { from: sent },
        HandlerState::Flushed => HandlerAction::Flush,
        HandlerState::Closed => HandlerAction::Idle,
        HandlerState::Failed(error) => HandlerAction::Abort(error),
    }
}

/// The state after a write is reported to have taken `taken` bytes when
/// `sent` were already delivered. Taking nothing, or more than was on offer,
/// counts as a failed write.
pub open spec fn after_write(sent: usize, taken: usize) -> HandlerState {
    if taken == 0 || sent + taken > response_len() {
        HandlerState::Failed(HandlerError::Write)
    } else if sent + taken == response_len() {
        HandlerState::Flushed
    } else {
        HandlerState::Writing { sent: (sent + taken) as usize }
    }
}

/// The state that follows `state` on `event`. A pair that is not listed
/// leaves the state as it is.
pub open spec fn next_state(state: HandlerState, event: HandlerEvent) -> HandlerState {
    match (state, event) {
        (HandlerState::Accepted, HandlerEvent::Started) => HandlerState::Writing { sent: 0 },
        (HandlerState::Writing { sent }, HandlerEvent::Wrote(taken)) => after_write(sent, taken),
        (HandlerState::Writing { .. }, HandlerEvent::WriteFailed) => HandlerState::Failed(
            HandlerError::Write,
        ),
        (HandlerState::Flushed, HandlerEvent::FlushDone) => HandlerState::Closed,
        (HandlerState::Flushed, HandlerEvent::FlushFailed) => HandlerState::Failed(
            HandlerError::Flush,
        ),
        (HandlerState::Failed(_), HandlerEvent::Released) => HandlerState::Closed,
        _ => state,
    }
}

/// The action that answers `event` in `state`: `Close` when a flush
/// completes, otherwise the action that the following state is waiting on.
pub open spec fn next_action(state: HandlerState, event: HandlerEvent) -> HandlerAction {
    match (state, event) {
        (HandlerState::Flushed, HandlerEvent::FlushDone) => HandlerAction::Close,
        _ => owed(next_state(state, event)),
    }
}

/// The state that a handler reaches from `state` on `events`, in order.
pub open spec fn run_from(state: HandlerState, events: Seq<HandlerEvent>) -> HandlerState
    decreases events.len(),
{
    if events.len() == 0 {
        state
    } else {
        next_state(run_from(state, events.drop_last()), events.last())
    }
}

/// The part of the response that a state offers to the transport.
pub open spec fn offered_bytes(state: HandlerState) -> Seq<u8> {
    match state {
        HandlerState::Writing { sent } => response_bytes().skip(sent as int),
        _ => Seq::empty(),
    }
}

/// The handler of one connection. It holds its own copy of the response.
pub struct Handler {
    response: Vec<u8>,
    state: HandlerState,
}

impl View for Handler {
    type V = HandlerState;

    closed spec fn view(&self) -> HandlerState {
        self.state
    }
}

impl Handler {
    #[verifier::type_invariant]
    spec fn well_formed(self) -> bool {
        &&& self.response@ == response_bytes()
        &&& self.state matches HandlerState::Writing { sent } ==> sent < self.response@.len()
    }

    /// The handler of a connection that has just been accepted.
    pub fn accept() -> (handler: Handler)
        ensures
            handler@ == HandlerState::Accepted,
    {
        Handler { response: response(), state: HandlerState::Accepted }
    }

    /// Where the handler stands.
    pub fn state(&self) -> (state: HandlerState)
        ensures
            state == self@,
    {
        self.state
    }

    /// The response that this handler delivers.
    pub fn response(&self) -> (bytes: &[u8])
        ensures
            bytes@ == response_bytes(),
    {
        proof {
            use_type_invariant(self);
        }
        self.response.as_slice()
    }

    /// The chunk that is on offer: the response without the bytes already
    /// delivered while writing, nothing in any other state.
    pub fn offered(&self) -> (chunk: &[u8])
        ensures
            chunk@ == offered_bytes(self@),
    {
        proof {
            use_type_invariant(self);
        }
        let bytes = self.response.as_slice();
        match self.state {
            HandlerState::Writing { sent } => slice_subrange(bytes, sent, bytes.len()),
            _ => slice_subrange(bytes, 0, 0),
        }
    }

    /// Takes `event` and answers with the action to carry out next.
    pub fn step(&mut self, event: HandlerEvent) -> (action: HandlerAction)
        ensures
            final(self)@ == next_state(old(self)@, event),
            action == next_action(old(self)@, event),
    {
        proof {
            use_type_invariant(&*self);
        }
        let total = self.response.len();
        let (state, action) = match (self.state, event) {
            (HandlerState::Accepted, HandlerEvent::Started) => {
                (HandlerState::Writing { sent: 0 }, HandlerAction::Write { from: 0 })
            },
            (HandlerState::Writing { sent }, HandlerEvent::Wrote(taken)) => {
                if taken == 0 || taken > total - sent {
                    (
                        HandlerState::Failed(HandlerError::Write),
                        HandlerAction::Abort(HandlerError::Write),
                    )
                } else if taken == total - sent {
                    (HandlerState::Flushed, HandlerAction::Flush)
                } else {
                    (
                        HandlerState::Writing { sent: sent + taken },
                        HandlerAction::Write { from: sent + taken },
                    )
                }
            },
            (HandlerState::Writing { .. }, HandlerEvent::WriteFailed) => (
                HandlerState::Failed(HandlerError::Write),
                HandlerAction::Abort(HandlerError::Write),
            ),
            (HandlerState::Flushed, HandlerEvent::FlushDone) => (
                HandlerState::Closed,
                HandlerAction::Close,
            ),
            (HandlerState::Flushed, HandlerEvent::FlushFailed) => (
                HandlerState::Failed(HandlerError::Flush),
                HandlerAction::Abort(HandlerError::Flush),
            ),
            (HandlerState::Failed(_), HandlerEvent::Released) => (
                HandlerState::Closed,
                HandlerAction::Idle,
            ),
            (HandlerState::Accepted, _) => (HandlerState::Accepted, HandlerAction::Idle),
            (HandlerState::Writing { sent }, _) => (
                HandlerState::Writing { sent },
                HandlerAction::Write { from: sent },
            ),
            (HandlerState::Flushed, _) => (HandlerState::Flushed, HandlerAction::Flush),
            (HandlerState::Closed, _) => (HandlerState::Closed, HandlerAction::Idle),
            (HandlerState::Failed(error), _) => (
                HandlerState::Failed(error),
                HandlerAction::Abort(error),
            ),
        };
        self.state = state;
        action
    }
}

} // verus!
