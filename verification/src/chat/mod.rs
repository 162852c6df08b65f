//! Chat: the messages, and the steps that move them between queue and log.

pub mod entity;
pub mod packet;
pub mod system;
