//! What reaches the peer of a connection.
//!
//! A handler never sees the transport. What it knows are the events that its
//! driver reports. This module reads a sequence of events as the history of
//! one connection and says which bytes the transport has taken by then. The
//! laws below hold for every such history.

use crate::decimal::{decimal, decimal_value};
use crate::handler::{
    next_state, offered_bytes, response_len, run_from, HandlerEvent, HandlerState,
};
use crate::response::{
    ascii, body_bytes, lemma_content_length, lemma_content_type, lemma_response_bytes,
    lemma_status_line, line_at, response_bytes, response_for,
};
use vstd::prelude::*;

verus! {

/// The state of a handler whose whole history is `events`: it began in
/// `Accepted`.
pub open spec fn run(events: Seq<HandlerEvent>) -> HandlerState {
    run_from(HandlerState::Accepted, events)
}

/// The bytes that the transport takes with one event: on `Wrote(taken)`, the
/// first `taken` bytes of the chunk that `state` has on offer. A count beyond
/// the chunk stands for nothing.
pub open spec fn taken_bytes(state: HandlerState, event: HandlerEvent) -> Seq<u8> {
    match event {
        HandlerEvent::Wrote(taken) => if taken <= offered_bytes(state).len() {
            offered_bytes(state).take(taken as int)
        } else {
            Seq::empty()
        },
        _ => Seq::empty(),
    }
}

/// All bytes that the transport has taken after `events`.
pub open spec fn transmitted(events: Seq<HandlerEvent>) -> Seq<u8>
    decreases events.len(),
{
    if events.len() == 0 {
        Seq::empty()
    } else {
        transmitted(events.drop_last()) + taken_bytes(run(events.drop_last()), events.last())
    }
}

/// Whether the connection succeeded: at some point of `events` a flush that
/// the handler had asked for was reported complete.
pub open spec fn delivered(events: Seq<HandlerEvent>) -> bool
    decreases events.len(),
{
    events.len() > 0 && (delivered(events.drop_last()) || (run(events.drop_last())
        == HandlerState::Flushed && events.last() == HandlerEvent::FlushDone))
}

/// Whether `state` can occur: while writing, part of the response is still
/// on offer.
pub open spec fn reachable(state: HandlerState) -> bool {
    state matches HandlerState::Writing { sent } ==> sent < response_len()
}

/// The transitions are those of the diagram: `Failed` is entered from
/// `Writing` and `Flushed` only, `Closed` from `Flushed` and `Failed` only,
/// and nothing leaves `Closed`. A write that is accepted moves the handler
/// strictly forward.
pub proof fn lemma_transitions(state: HandlerState, event: HandlerEvent)
    requires
        reachable(state),
    ensures
        reachable(next_state(state, event)),
        next_state(state, event) is Failed ==> state is Writing || state is Flushed
            || state == next_state(state, event),
        next_state(state, event) is Closed ==> state is Flushed || state is Failed
            || state is Closed,
        state is Closed ==> next_state(state, event) is Closed,
        state is Accepted ==> next_state(state, event) is Accepted || next_state(state, event)
            == (HandlerState::Writing { sent: 0 }),
        state is Writing && next_state(state, event) is Writing ==> state->sent <= next_state(
            state,
            event,
        )->sent && (event is Wrote ==> state->sent < next_state(state, event)->sent),
{
    lemma_response_bytes();
}

/// At every point of every history, the peer holds a prefix of the response:
/// nothing before the handler starts, the first `sent` bytes while it is
/// writing, all of it once it is flushing. After a failure the peer is left
/// with a response that is cut short or absent, never with other bytes.
pub proof fn lemma_transmitted_is_prefix(events: Seq<HandlerEvent>)
    ensures
        reachable(run(events)),
        transmitted(events).len() <= response_len(),
        transmitted(events) == response_bytes().take(transmitted(events).len() as int),
        run(events) is Accepted ==> transmitted(events).len() == 0,
        run(events) matches HandlerState::Writing { sent } ==> transmitted(events).len() == sent,
        run(events) is Flushed ==> transmitted(events) == response_bytes(),
    decreases events.len(),
{
    lemma_response_bytes();
    if events.len() > 0 {
        let before = events.drop_last();
        lemma_transmitted_is_prefix(before);
        let sofar = transmitted(before);
        let more = taken_bytes(run(before), events.last());
        assert(sofar + more =~= response_bytes().take((sofar + more).len() as int));
        if run(events) is Flushed {
            assert(transmitted(events) =~= response_bytes());
        }
    }
}

/// A connection that succeeded is closed, and its peer holds the whole
/// response, whatever came after the flush.
pub proof fn lemma_delivered_whole_response(events: Seq<HandlerEvent>)
    requires
        delivered(events),
    ensures
        run(events) is Closed,
        transmitted(events) == response_bytes(),
    decreases events.len(),
{
    let before = events.drop_last();
    if delivered(before) {
        lemma_delivered_whole_response(before);
    } else {
        lemma_transmitted_is_prefix(before);
    }
    assert(taken_bytes(run(before), events.last()) =~= Seq::<u8>::empty());
    assert(transmitted(events) =~= transmitted(before));
}

/// Any two connections that succeeded received the same bytes, whatever
/// their histories were.
pub proof fn lemma_responses_identical(first: Seq<HandlerEvent>, second: Seq<HandlerEvent>)
    requires
        delivered(first),
        delivered(second),
    ensures
        transmitted(first) == transmitted(second),
{
    lemma_delivered_whole_response(first);
    lemma_delivered_whole_response(second);
}

/// On every connection that succeeded, the first line that the peer holds is
/// the status line `HTTP/1.1 200 OK`.
pub proof fn lemma_delivered_status_line(events: Seq<HandlerEvent>)
    requires
        delivered(events),
    ensures
        line_at(transmitted(events), 0, ascii("HTTP/1.1 200 OK"@)),
{
    lemma_delivered_whole_response(events);
    lemma_status_line(body_bytes());
}

/// On every connection that succeeded, the second line that the peer holds
/// is the header `Content-Type: application/json`.
pub proof fn lemma_delivered_content_type(events: Seq<HandlerEvent>)
    requires
        delivered(events),
    ensures
        line_at(transmitted(events), 17, ascii("Content-Type: application/json"@)),
{
    lemma_delivered_whole_response(events);
    lemma_content_type(body_bytes());
}

/// On every connection that succeeded, the peer holds a `Content-Length`
/// header, a blank line and a body. The body is `{"balance": 0.00}`, byte for
/// byte, and the digits of the header denote the number of its bytes.
pub proof fn lemma_delivered_content_length(events: Seq<HandlerEvent>)
    requires
        delivered(events),
    ensures
        transmitted(events) == response_for(body_bytes()),
        body_bytes() == ascii("{\"balance\": 0.00}"@),
        line_at(
            transmitted(events),
            49,
            ascii("Content-Length: "@) + decimal(body_bytes().len()),
        ),
        decimal_value(decimal(body_bytes().len())) == body_bytes().len(),
        line_at(
            transmitted(events),
            transmitted(events).len() - body_bytes().len() - 2,
            Seq::empty(),
        ),
        transmitted(events).skip(transmitted(events).len() - body_bytes().len()) == body_bytes(),
{
    lemma_delivered_whole_response(events);
    lemma_content_length(body_bytes());
}

} // verus!
