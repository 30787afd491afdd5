//! Configuration.

pub mod layout;
pub mod plugin;
pub mod plugins;
