//! Connection-oriented packet transport with a hierarchical timing wheel.
//!
//! The crate holds the decisions of the transport (framing, packet encoding,
//! routing by kind, the per-connection task state machines, connection
//! identity) and the discrete-tick scheduler, each with a contract that Verus
//! proves. Reading sockets, sleeping and spawning tasks is left to the
//! caller, which feeds the state machines with what it observed.

pub mod ambit;
pub mod channel;
pub mod chat;
pub mod id;
pub mod network;
pub mod path;
pub mod time;
