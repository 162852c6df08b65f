//! The decisions of the tasks that serve one connection, and of the task
//! that takes new connections in.
//!
//! A task here is a state machine. Its caller waits for the stream, the
//! queue, the timer and the signals, tells the task what happened, and does
//! what the task answers.

pub mod accept;
pub mod recv;
pub mod send;
