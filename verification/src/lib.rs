//! A server that answers every connection with one fixed HTTP response.
//!
//! The library holds what the server computes and decides; it performs no
//! input or output. A driver binds the socket, accepts, writes and flushes,
//! and asks the library at every turn what to do next.
//!
//! * [`decimal`] renders a length the way the `Content-Length` header carries it.
//! * [`response`] builds the bytes that every connection receives.
//! * [`handler`] is the state machine of one connection.
//! * [`listener`] is the state machine of the accept loop.
//! * [`delivery`] states what the peer of a connection holds after any history.
//! * [`system`] states that the listener and the handlers do not move each other.

pub mod decimal;
pub mod delivery;
pub mod handler;
pub mod listener;
pub mod response;
pub mod system;
