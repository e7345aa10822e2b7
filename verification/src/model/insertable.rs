//! Records as they are handed to the store for insertion: without an id,
//! which the store assigns.

use vstd::prelude::*;

use crate::model::Timestamp;

verus! {

/// The values of a subscription row to insert, or to overwrite an existing
/// row of the same account and podcast with.
#[derive(Debug, Clone, Copy, PartialEq, Eq)]
pub struct AccountPodcast {
    pub account_id: i64,
    pub podcast_id: i64,
    pub subscribed_at: Option<Timestamp>,
    pub unsubscribed_at: Option<Timestamp>,
}

/// The values of a listen-progress row to insert, or to overwrite an existing
/// row of the same subscription and episode with.
#[derive(Debug, Clone, Copy, PartialEq, Eq)]
pub struct AccountPodcastEpisode {
    pub account_podcast_id: i64,
    pub episode_id: i64,
    pub listened_seconds: Option<i64>,
    pub played: bool,
}

} // verus!
