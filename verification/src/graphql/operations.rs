//! The objects that the query interface hands out, made from the rows of
//! the catalog.
//!
//! Ids go out as strings: a client keeps them as tokens and cannot hold every
//! 64-bit integer as a number.

use vstd::prelude::*;

use crate::errors::{parse_id, unreadable_id, Error};
use crate::model::{Episode, EpisodeView, Podcast, PodcastView, Timestamp};
use crate::text::parsed_decimal;
use crate::text::{clone_text, signed_decimal, signed_decimal_string};

verus! {

/// The most episodes that one query for the episodes of a podcast returns.
pub const EPISODE_LIMIT: i64 = 50;

/// The most podcasts that one query for podcasts returns.
pub const PODCAST_LIMIT: i64 = 5;

/// An episode as the query interface shows it.
#[derive(Debug, Clone, PartialEq, Eq)]
pub struct EpisodeObject {
    pub id: String,
    pub description: Option<String>,
    pub explicit: Option<bool>,
    pub link_url: Option<String>,
    pub media_url: String,
    pub podcast_id: String,
    pub published_at: Timestamp,
    pub title: String,
}

/// The mathematical content of an [`EpisodeObject`].
pub struct EpisodeObjectView {
    pub id: Seq<char>,
    pub description: Option<Seq<char>>,
    pub explicit: Option<bool>,
    pub link_url: Option<Seq<char>>,
    pub media_url: Seq<char>,
    pub podcast_id: Seq<char>,
    pub published_at: Timestamp,
    pub title: Seq<char>,
}

impl View for EpisodeObject {
    type V = EpisodeObjectView;

    open spec fn view(&self) -> EpisodeObjectView {
        EpisodeObjectView {
            id: self.id@,
            description: self.description.deep_view(),
            explicit: self.explicit,
            link_url: self.link_url.deep_view(),
            media_url: self.media_url@,
            podcast_id: self.podcast_id@,
            published_at: self.published_at,
            title: self.title@,
        }
    }
}

/// The object for an episode: its two ids in decimal, everything else as in
/// the row.
pub open spec fn episode_object(episode: EpisodeView) -> EpisodeObjectView {
    EpisodeObjectView {
        id: signed_decimal(episode.id),
        description: episode.description,
        explicit: episode.explicit,
        link_url: episode.link_url,
        media_url: episode.media_url,
        podcast_id: signed_decimal(episode.podcast_id),
        published_at: episode.published_at,
        title: episode.title,
    }
}

impl EpisodeObject {
    /// Makes the object for an episode.
    pub fn from(episode: &Episode) -> (object: EpisodeObject)
        ensures
            object@ == episode_object(episode@),
    {
        EpisodeObject {
            id: signed_decimal_string(episode.id),
            description: clone_text(&episode.description),
            explicit: episode.explicit,
            link_url: clone_text(&episode.link_url),
            media_url: episode.media_url.clone(),
            podcast_id: signed_decimal_string(episode.podcast_id),
            published_at: episode.published_at,
            title: episode.title.clone(),
        }
    }
}

/// A podcast as the query interface shows it.
#[derive(Debug, Clone, PartialEq, Eq)]
pub struct PodcastObject {
    pub id: String,
    pub image_url: Option<String>,
    pub language: Option<String>,
    pub link_url: Option<String>,
    pub title: String,
}

/// The mathematical content of a [`PodcastObject`].
pub struct PodcastObjectView {
    pub id: Seq<char>,
    pub image_url: Option<Seq<char>>,
    pub language: Option<Seq<char>>,
    pub link_url: Option<Seq<char>>,
    pub title: Seq<char>,
}

impl View for PodcastObject {
    type V = PodcastObjectView;

    open spec fn view(&self) -> PodcastObjectView {
        PodcastObjectView {
            id: self.id@,
            image_url: self.image_url.deep_view(),
            language: self.language.deep_view(),
            link_url: self.link_url.deep_view(),
            title: self.title@,
        }
    }
}

/// The object for a podcast: its id in decimal, everything else as in the
/// row.
pub open spec fn podcast_object(podcast: PodcastView) -> PodcastObjectView {
    PodcastObjectView {
        id: signed_decimal(podcast.id),
        image_url: podcast.image_url,
        language: podcast.language,
        link_url: podcast.link_url,
        title: podcast.title,
    }
}

impl PodcastObject {
    /// Makes the object for a podcast.
    pub fn from(podcast: &Podcast) -> (object: PodcastObject)
        ensures
            object@ == podcast_object(podcast@),
    {
        PodcastObject {
            id: signed_decimal_string(podcast.id),
            image_url: clone_text(&podcast.image_url),
            language: clone_text(&podcast.language),
            link_url: clone_text(&podcast.link_url),
            title: podcast.title.clone(),
        }
    }
}

/// Makes the objects for the episodes that a query loaded, in their order.
pub fn episode_objects(episodes: &Vec<Episode>) -> (objects: Vec<EpisodeObject>)
    ensures
        objects@.len() == episodes@.len(),
        forall|i: int|
            0 <= i < episodes@.len() ==> (#[trigger] objects@[i])@ == episode_object(episodes@[i]@),
{
    let mut objects: Vec<EpisodeObject> = Vec::new();
    let mut i: usize = 0;
    while i < episodes.len()
        invariant
            i <= episodes@.len(),
            objects@.len() == i,
            forall|k: int| 0 <= k < i ==> (#[trigger] objects@[k])@ == episode_object(episodes@[k]@),
        decreases episodes@.len() - i,
    {
        objects.push(EpisodeObject::from(&episodes[i]));
        i = i + 1;
    }
    objects
}

/// Makes the objects for the podcasts that a query loaded, in their order.
pub fn podcast_objects(podcasts: &Vec<Podcast>) -> (objects: Vec<PodcastObject>)
    ensures
        objects@.len() == podcasts@.len(),
        forall|i: int|
            0 <= i < podcasts@.len() ==> (#[trigger] objects@[i])@ == podcast_object(podcasts@[i]@),
{
    let mut objects: Vec<PodcastObject> = Vec::new();
    let mut i: usize = 0;
    while i < podcasts.len()
        invariant
            i <= podcasts@.len(),
            objects@.len() == i,
            forall|k: int| 0 <= k < i ==> (#[trigger] objects@[k])@ == podcast_object(podcasts@[k]@),
        decreases podcasts@.len() - i,
    {
        objects.push(PodcastObject::from(&podcasts[i]));
        i = i + 1;
    }
    objects
}

/// Reads the id of the podcast whose episodes are asked for.
pub fn parse_podcast_id(podcast_id: &str) -> (id: Result<i64, Error>)
    ensures
        match id {
            Ok(n) => parsed_decimal(podcast_id@) == Some(n as int),
            Err(error) => parsed_decimal(podcast_id@) is None && error@ == unreadable_id(
                podcast_id@,
                "Error parsing podcast ID"@,
            ),
        },
{
    parse_id(podcast_id, "Error parsing podcast ID")
}

} // verus!
