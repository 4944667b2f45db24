//! Request-dispatch core of a local virtual-machine control-plane server.
//!
//! The verified library holds the route registry, the per-request dispatch
//! rules, and the per-connection session state machine.  Listening on the
//! socket, parsing HTTP off the wire, and the worker pool live outside the
//! library and hand it plain values.

pub mod message;
pub mod routes;
pub mod session;
pub mod server;
