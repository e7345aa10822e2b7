//! The query interface.

pub mod handlers;
pub mod operations;
