//! The request bridge and the transactional mediators of a podcast backend.
//!
//! A transport request is turned into typed parameters, wrapped in a message
//! for a worker, answered by a mediator or a query, and rendered back into a
//! transport response. Everything here works on plain values; the network and
//! the database stay with the caller.
//!
//! - [`server`] holds the bridge: requests, responses, messages, and the one
//!   place where an error is split into what a client may read and what it
//!   may not.
//! - [`graphql`] and [`web`] are the two interfaces that are built on it.
//! - [`mediators`] hold the state transitions, each as the steps of one
//!   transaction, and [`store`] the model of the tables they write.
//! - [`errors`], [`model`] and [`text`] are what all of them share.

pub mod errors;
pub mod graphql;
pub mod mediators;
pub mod model;
pub mod server;
pub mod store;
pub mod text;
pub mod time_helpers;
pub mod web;
