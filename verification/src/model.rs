//! The entities that the bridge and the mediators read and write.
//!
//! Each record holds as plain values what the logic here looks at. A point in
//! time is a pair of seconds and nanoseconds since the Unix epoch.

use vstd::prelude::*;

pub mod insertable;

verus! {

/// A point in time: whole seconds since the Unix epoch and the nanoseconds
/// past that second.
#[derive(Debug, Clone, Copy, PartialEq, Eq)]
pub struct Timestamp {
    pub secs: i64,
    pub nanos: u32,
}

/// An authenticated principal.
#[derive(Debug, Clone, Copy, PartialEq, Eq)]
pub struct Account {
    pub id: i64,
}

/// A podcast of the catalog.
#[derive(Debug, Clone, PartialEq, Eq)]
pub struct Podcast {
    pub id: i64,
    pub image_url: Option<String>,
    pub language: Option<String>,
    pub link_url: Option<String>,
    pub title: String,
}

/// The mathematical content of a [`Podcast`].
pub struct PodcastView {
    pub id: int,
    pub image_url: Option<Seq<char>>,
    pub language: Option<Seq<char>>,
    pub link_url: Option<Seq<char>>,
    pub title: Seq<char>,
}

impl View for Podcast {
    type V = PodcastView;

    open spec fn view(&self) -> PodcastView {
        PodcastView {
            id: self.id as int,
            image_url: self.image_url.deep_view(),
            language: self.language.deep_view(),
            link_url: self.link_url.deep_view(),
            title: self.title@,
        }
    }
}

/// An episode of a podcast.
#[derive(Debug, Clone, PartialEq, Eq)]
pub struct Episode {
    pub id: i64,
    pub description: Option<String>,
    pub explicit: Option<bool>,
    pub link_url: Option<String>,
    pub media_url: String,
    pub podcast_id: i64,
    pub published_at: Timestamp,
    pub title: String,
}

/// The mathematical content of an [`Episode`].
pub struct EpisodeView {
    pub id: int,
    pub description: Option<Seq<char>>,
    pub explicit: Option<bool>,
    pub link_url: Option<Seq<char>>,
    pub media_url: Seq<char>,
    pub podcast_id: int,
    pub published_at: Timestamp,
    pub title: Seq<char>,
}

impl View for Episode {
    type V = EpisodeView;

    open spec fn view(&self) -> EpisodeView {
        EpisodeView {
            id: self.id as int,
            description: self.description.deep_view(),
            explicit: self.explicit,
            link_url: self.link_url.deep_view(),
            media_url: self.media_url@,
            podcast_id: self.podcast_id as int,
            published_at: self.published_at,
            title: self.title@,
        }
    }
}

/// The subscription state of one account for one podcast. There is at most
/// one such row for each pair of account and podcast.
#[derive(Debug, Clone, Copy, PartialEq, Eq)]
pub struct AccountPodcast {
    pub id: i64,
    pub account_id: i64,
    pub podcast_id: i64,
    pub subscribed_at: Option<Timestamp>,
    pub unsubscribed_at: Option<Timestamp>,
}

impl AccountPodcast {
    /// Whether this row is the one for the given account and podcast.
    pub open spec fn has_key(self, account_id: i64, podcast_id: i64) -> bool {
        self.account_id == account_id && self.podcast_id == podcast_id
    }

    /// Whether the row stands for a subscription that is in force.
    pub open spec fn is_subscribed(self) -> bool {
        self.subscribed_at is Some && self.unsubscribed_at is None
    }
}

/// The listen progress of one subscription for one episode. There is at most
/// one such row for each pair of subscription and episode.
#[derive(Debug, Clone, Copy, PartialEq, Eq)]
pub struct AccountPodcastEpisode {
    pub id: i64,
    pub account_podcast_id: i64,
    pub episode_id: i64,
    pub listened_seconds: Option<i64>,
    pub played: bool,
}

impl AccountPodcastEpisode {
    /// Whether this row is the one for the given subscription and episode.
    pub open spec fn has_key(self, account_podcast_id: i64, episode_id: i64) -> bool {
        self.account_podcast_id == account_podcast_id && self.episode_id == episode_id
    }
}

/// What went wrong when a podcast of an outside directory was expanded.
#[derive(Debug, Clone, PartialEq, Eq)]
pub struct DirectoryPodcastException {
    pub id: i64,
    pub directory_podcast_id: i64,
    pub errors: Vec<String>,
}

} // verus!
