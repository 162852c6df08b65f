//! Sight: which entities a client is told about.

pub mod packet;
pub mod plugin;
