//! The listener and its handlers, taken together.
//!
//! The listener and the handlers run side by side, and their events arrive in
//! any order. This module puts them into one model: a system is the state of
//! the listener and the states of all handlers dispatched so far, and an event
//! of the system is an event of the listener or of one handler. The laws say
//! that no part of the system is moved by events of another part.

use crate::handler;
use crate::handler::{HandlerEvent, HandlerState};
use crate::listener;
use crate::listener::{ListenerAction, ListenerEvent, ListenerState};
use vstd::prelude::*;

verus! {

/// The listener and every handler dispatched so far, in order of dispatch.
pub struct System {
    pub listener: ListenerState,
    pub handlers: Seq<HandlerState>,
}

/// An event of the listener, or an event of the handler at `index`.
pub enum SystemEvent {
    Listener(ListenerEvent),
    Handler { index: int, event: HandlerEvent },
}

/// The system after one event. An event of the listener moves the listener,
/// and adds a handler in `Accepted` where the listener answers `Dispatch`. An
/// event of a handler moves that handler; for an index that names no handler
/// it is lost.
pub open spec fn system_step(system: System, event: SystemEvent) -> System {
    match event {
        SystemEvent::Listener(event) => System {
            listener: listener::next_state(system.listener, event),
            handlers: if listener::next_action(system.listener, event)
                == ListenerAction::Dispatch {
                system.handlers.push(HandlerState::Accepted)
            } else {
                system.handlers
            },
        },
        SystemEvent::Handler { index, event } => if 0 <= index < system.handlers.len() {
            System {
                listener: system.listener,
                handlers: system.handlers.update(
                    index,
                    handler::next_state(system.handlers[index], event),
                ),
            }
        } else {
            system
        },
    }
}

/// The system after `events`, in order.
pub open spec fn system_run(system: System, events: Seq<SystemEvent>) -> System
    decreases events.len(),
{
    if events.len() == 0 {
        system
    } else {
        system_step(system_run(system, events.drop_last()), events.last())
    }
}

/// The events of the listener among `events`, in order.
pub open spec fn listener_events(events: Seq<SystemEvent>) -> Seq<ListenerEvent>
    decreases events.len(),
{
    if events.len() == 0 {
        Seq::empty()
    } else {
        match events.last() {
            SystemEvent::Listener(event) => listener_events(events.drop_last()).push(event),
            SystemEvent::Handler { .. } => listener_events(events.drop_last()),
        }
    }
}

/// The events of the handler at `index` among `events`, in order.
pub open spec fn handler_events(events: Seq<SystemEvent>, index: int) -> Seq<HandlerEvent>
    decreases events.len(),
{
    if events.len() == 0 {
        Seq::empty()
    } else {
        match events.last() {
            SystemEvent::Handler { index: at, event } if at == index => handler_events(
                events.drop_last(),
                index,
            ).push(event),
            _ => handler_events(events.drop_last(), index),
        }
    }
}

/// A connection that arrives while the listener is listening gets exactly
/// one handler, which starts in `Accepted`. The listener goes on listening,
/// and the handlers that were there are left as they were.
pub proof fn lemma_one_handler_per_connection(system: System)
    requires
        system.listener == ListenerState::Listening,
    ensures
        system_step(system, SystemEvent::Listener(ListenerEvent::Connected)) == (System {
            listener: ListenerState::Listening,
            handlers: system.handlers.push(HandlerState::Accepted),
        }),
{
}

/// An event of one handler, a failure included, moves nothing but that
/// handler: the listener and all other handlers are left as they were. A
/// listener that was listening still answers the next connection with
/// `Dispatch`.
pub proof fn lemma_handler_event_is_local(system: System, index: int, event: HandlerEvent)
    ensures
        system_step(system, SystemEvent::Handler { index, event }).listener == system.listener,
        system_step(system, SystemEvent::Handler { index, event }).handlers.len()
            == system.handlers.len(),
        forall|other: int|
            0 <= other < system.handlers.len() && other != index ==> system_step(
                system,
                SystemEvent::Handler { index, event },
            ).handlers[other] == system.handlers[other],
        system.listener == ListenerState::Listening ==> listener::next_action(
            system_step(system, SystemEvent::Handler { index, event }).listener,
            ListenerEvent::Connected,
        ) == ListenerAction::Dispatch,
{
}

/// Whatever the handlers go through, and in whatever order the events of the
/// system arrive, the listener is where its own events alone would have put
/// it.
pub proof fn lemma_listener_follows_own_events(system: System, events: Seq<SystemEvent>)
    ensures
        system_run(system, events).listener == listener::run_from(
            system.listener,
            listener_events(events),
        ),
    decreases events.len(),
{
    if events.len() > 0 {
        let before = events.drop_last();
        lemma_listener_follows_own_events(system, before);
        match events.last() {
            SystemEvent::Listener(event) => {
                let own = listener_events(before).push(event);
                assert(own.drop_last() =~= listener_events(before));
            },
            SystemEvent::Handler { .. } => {},
        }
    }
}

/// Handlers are never removed, and a handler that is there is where its own
/// events alone would have put it: neither the listener nor another handler
/// moves it.
pub proof fn lemma_handler_follows_own_events(
    system: System,
    events: Seq<SystemEvent>,
    index: int,
)
    requires
        0 <= index < system.handlers.len(),
    ensures
        system_run(system, events).handlers.len() >= system.handlers.len(),
        system_run(system, events).handlers[index] == handler::run_from(
            system.handlers[index],
            handler_events(events, index),
        ),
    decreases events.len(),
{
    if events.len() > 0 {
        let before = events.drop_last();
        lemma_handler_follows_own_events(system, before, index);
        match events.last() {
            SystemEvent::Handler { index: at, event } => {
                if at == index {
                    let own = handler_events(before, index).push(event);
                    assert(own.drop_last() =~= handler_events(before, index));
                }
            },
            SystemEvent::Listener(_) => {},
        }
    }
}

} // verus!
