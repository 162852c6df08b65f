//! The packet transport: wire format, framing, routing and the connection
//! tasks' decisions.

pub mod accept;
pub mod connection;
pub mod error;
pub mod mediator;
pub mod packet;
pub mod plugin;
pub mod server;
pub mod shared;
pub mod socket;
pub mod task;
pub mod wire;
