//! Walking: targets, paths and the steps along them.

pub mod packet;
pub mod plugin;
