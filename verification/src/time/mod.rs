//! Discrete simulation time: the tick counter and the timing wheel keyed by it.

pub mod packet;
pub mod schedule;
pub mod tick;
