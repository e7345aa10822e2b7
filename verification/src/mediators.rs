//! Transaction-scoped units, each performing one state transition.

pub mod account_podcast_episode_upserter;
pub mod account_podcast_subscriber;
pub mod common;
