//! Error reporting and plugin configuration shared by the parts of a terminal workspace.

pub mod data;
pub mod errors;
pub mod input;
pub mod order;
pub mod outside;
pub mod text;
