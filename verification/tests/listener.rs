use balance_server::handler::{Handler, HandlerAction, HandlerError, HandlerEvent, HandlerState};
use balance_server::listener::{
    Listener, ListenerAction, ListenerError, ListenerEvent, ListenerState, HOST, PORT,
};
use balance_server::response::response;

fn listening() -> Listener {
    let mut listener = Listener::new();
    listener.step(ListenerEvent::Started);
    listener.step(ListenerEvent::Bound);
    listener
}

/// Runs a handler to its end over a transport that takes `limit` bytes per
/// write and fails the write that would begin at or beyond `fail_at`.
fn serve(limit: usize, fail_at: Option<usize>) -> (HandlerState, Vec<u8>, Option<HandlerError>) {
    let mut handler = Handler::accept();
    let mut taken: Vec<u8> = Vec::new();
    let mut failure = None;
    let mut action = handler.step(HandlerEvent::Started);
    loop {
        let event = match action {
            HandlerAction::Write { from } => match fail_at {
                Some(at) if from >= at => HandlerEvent::WriteFailed,
                _ => {
                    let chunk = handler.offered();
                    let n = chunk.len().min(limit);
                    taken.extend_from_slice(&chunk[..n]);
                    HandlerEvent::Wrote(n)
                }
            },
            HandlerAction::Flush => HandlerEvent::FlushDone,
            HandlerAction::Close => HandlerEvent::Released,
            HandlerAction::Abort(error) => {
                failure = Some(error);
                HandlerEvent::Released
            }
            HandlerAction::Idle => return (handler.state(), taken, failure),
        };
        action = handler.step(event);
    }
}

#[test]
fn listener_binds_the_fixed_address() {
    assert_eq!(HOST, "127.0.0.1");
    assert_eq!(PORT, 8181);
}

#[test]
fn listener_binds_then_accepts() {
    let mut listener = Listener::new();
    assert_eq!(listener.state(), ListenerState::Created);
    assert_eq!(listener.step(ListenerEvent::Started), ListenerAction::Bind);
    assert_eq!(listener.state(), ListenerState::Binding);
    assert_eq!(listener.step(ListenerEvent::Bound), ListenerAction::Accept);
    assert_eq!(listener.state(), ListenerState::Listening);
    assert_eq!(listener.step(ListenerEvent::Connected), ListenerAction::Dispatch);
    assert_eq!(listener.state(), ListenerState::Listening);
}

#[test]
fn listener_stops_when_binding_fails() {
    let mut listener = Listener::new();
    listener.step(ListenerEvent::Started);
    assert_eq!(
        listener.step(ListenerEvent::BindFailed),
        ListenerAction::Abort(ListenerError::Bind)
    );
    assert_eq!(listener.state(), ListenerState::Stopped(ListenerError::Bind));
}

#[test]
fn listener_stops_when_accepting_fails() {
    let mut listener = listening();
    listener.step(ListenerEvent::Connected);
    assert_eq!(
        listener.step(ListenerEvent::AcceptFailed),
        ListenerAction::Abort(ListenerError::Accept)
    );
    assert_eq!(listener.state(), ListenerState::Stopped(ListenerError::Accept));
}

#[test]
fn listener_stays_stopped() {
    let mut listener = listening();
    listener.step(ListenerEvent::AcceptFailed);
    for event in [
        ListenerEvent::Started,
        ListenerEvent::Bound,
        ListenerEvent::BindFailed,
        ListenerEvent::Connected,
        ListenerEvent::AcceptFailed,
    ] {
        assert_eq!(listener.step(event), ListenerAction::Abort(ListenerError::Accept));
        assert_eq!(listener.state(), ListenerState::Stopped(ListenerError::Accept));
    }
}

#[test]
fn listener_waits_for_its_start() {
    for event in [
        ListenerEvent::Bound,
        ListenerEvent::BindFailed,
        ListenerEvent::Connected,
        ListenerEvent::AcceptFailed,
    ] {
        let mut listener = Listener::new();
        assert_eq!(listener.step(event), ListenerAction::Idle);
        assert_eq!(listener.state(), ListenerState::Created);
    }
}

#[test]
fn listener_repeats_its_request_on_an_event_it_has_no_use_for() {
    let mut listener = Listener::new();
    listener.step(ListenerEvent::Started);
    for event in [ListenerEvent::Started, ListenerEvent::Connected, ListenerEvent::AcceptFailed] {
        assert_eq!(listener.step(event), ListenerAction::Bind);
        assert_eq!(listener.state(), ListenerState::Binding);
    }
    listener.step(ListenerEvent::Bound);
    for event in [ListenerEvent::Started, ListenerEvent::Bound, ListenerEvent::BindFailed] {
        assert_eq!(listener.step(event), ListenerAction::Accept);
        assert_eq!(listener.state(), ListenerState::Listening);
    }
}

#[test]
fn listener_accepts_without_end() {
    let mut listener = listening();
    for _ in 0..10_000 {
        assert_eq!(listener.step(ListenerEvent::Connected), ListenerAction::Dispatch);
        assert_eq!(listener.state(), ListenerState::Listening);
    }
}

#[test]
fn every_connection_gets_the_same_response() {
    let mut listener = listening();
    let mut responses: Vec<Vec<u8>> = Vec::new();
    for connection in 0..50usize {
        assert_eq!(listener.step(ListenerEvent::Connected), ListenerAction::Dispatch);
        let (state, taken, failure) = serve(connection + 1, None);
        assert_eq!(state, HandlerState::Closed);
        assert_eq!(failure, None);
        responses.push(taken);
    }
    for taken in &responses {
        assert_eq!(taken, &response());
    }
}

#[test]
fn a_broken_connection_does_not_stop_the_listener() {
    let mut listener = listening();

    assert_eq!(listener.step(ListenerEvent::Connected), ListenerAction::Dispatch);
    let (state, taken, failure) = serve(16, Some(0));
    assert_eq!(state, HandlerState::Closed);
    assert_eq!(failure, Some(HandlerError::Write));
    assert!(taken.is_empty());
    assert_eq!(listener.state(), ListenerState::Listening);

    assert_eq!(listener.step(ListenerEvent::Connected), ListenerAction::Dispatch);
    let (state, taken, failure) = serve(16, Some(32));
    assert_eq!(state, HandlerState::Closed);
    assert_eq!(failure, Some(HandlerError::Write));
    assert_eq!(taken, response()[..32].to_vec());
    assert_eq!(listener.state(), ListenerState::Listening);

    assert_eq!(listener.step(ListenerEvent::Connected), ListenerAction::Dispatch);
    let (state, taken, failure) = serve(16, None);
    assert_eq!(state, HandlerState::Closed);
    assert_eq!(failure, None);
    assert_eq!(taken, response());
    assert_eq!(listener.state(), ListenerState::Listening);
}

#[test]
fn handlers_side_by_side_do_not_disturb_each_other() {
    let mut listener = listening();
    let mut handlers: Vec<Handler> = Vec::new();
    let mut wires: Vec<Vec<u8>> = Vec::new();
    for _ in 0..8 {
        assert_eq!(listener.step(ListenerEvent::Connected), ListenerAction::Dispatch);
        let mut handler = Handler::accept();
        handler.step(HandlerEvent::Started);
        handlers.push(handler);
        wires.push(Vec::new());
    }
    // Interleave the writes: handler `i` takes `i + 1` bytes per turn, and
    // handler 3 breaks on its second turn.
    let mut open = handlers.len();
    let mut turn = 0;
    while open > 0 {
        for i in 0..handlers.len() {
            match handlers[i].state() {
                HandlerState::Writing { .. } => {
                    if i == 3 && turn == 1 {
                        handlers[i].step(HandlerEvent::WriteFailed);
                    } else {
                        let chunk = handlers[i].offered();
                        let n = chunk.len().min(i + 1);
                        wires[i].extend_from_slice(&chunk[..n]);
                        handlers[i].step(HandlerEvent::Wrote(n));
                    }
                }
                HandlerState::Flushed => {
                    handlers[i].step(HandlerEvent::FlushDone);
                    open -= 1;
                }
                HandlerState::Failed(_) => {
                    handlers[i].step(HandlerEvent::Released);
                    open -= 1;
                }
                _ => {}
            }
        }
        turn += 1;
    }
    for i in 0..handlers.len() {
        assert_eq!(handlers[i].state(), HandlerState::Closed);
        if i == 3 {
            assert_eq!(wires[i], response()[..4].to_vec());
        } else {
            assert_eq!(wires[i], response());
        }
    }
    assert_eq!(listener.state(), ListenerState::Listening);
    assert_eq!(listener.step(ListenerEvent::Connected), ListenerAction::Dispatch);
}
