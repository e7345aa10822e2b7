//! The page-rendering interface.

pub mod endpoints;
pub mod views;
