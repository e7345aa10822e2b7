use podcore::errors::{Error, ErrorKind};
use podcore::graphql::operations::{
    episode_objects, parse_podcast_id, podcast_objects, EpisodeObject, PodcastObject,
    EPISODE_LIMIT, PODCAST_LIMIT,
};
use podcore::model::{Episode, Podcast, Timestamp};

fn episode(id: i64, podcast_id: i64) -> Episode {
    Episode {
        id,
        description: Some("A description".to_string()),
        explicit: Some(false),
        link_url: None,
        media_url: "https://example.com/audio.mp3".to_string(),
        podcast_id,
        published_at: Timestamp { secs: 1_500_000_000, nanos: 5 },
        title: "An episode".to_string(),
    }
}

fn podcast(id: i64) -> Podcast {
    Podcast {
        id,
        image_url: Some("https://example.com/image.jpg".to_string()),
        language: None,
        link_url: Some("https://example.com/feed.xml".to_string()),
        title: "A podcast".to_string(),
    }
}

#[test]
fn test_episode_object_from() {
    assert_eq!(
        EpisodeObject {
            id: "12".to_string(),
            description: Some("A description".to_string()),
            explicit: Some(false),
            link_url: None,
            media_url: "https://example.com/audio.mp3".to_string(),
            podcast_id: "-3".to_string(),
            published_at: Timestamp { secs: 1_500_000_000, nanos: 5 },
            title: "An episode".to_string(),
        },
        EpisodeObject::from(&episode(12, -3))
    );
}

#[test]
fn test_podcast_object_from() {
    assert_eq!(
        PodcastObject {
            id: "9223372036854775807".to_string(),
            image_url: Some("https://example.com/image.jpg".to_string()),
            language: None,
            link_url: Some("https://example.com/feed.xml".to_string()),
            title: "A podcast".to_string(),
        },
        PodcastObject::from(&podcast(i64::MAX))
    );
    assert_eq!("-9223372036854775808", PodcastObject::from(&podcast(i64::MIN)).id);
    assert_eq!("0", PodcastObject::from(&podcast(0)).id);
}

#[test]
fn test_objects_keep_the_order() {
    let episodes = vec![episode(3, 1), episode(1, 1), episode(2, 1)];
    let objects = episode_objects(&episodes);
    let ids: Vec<&str> = objects.iter().map(|object| object.id.as_str()).collect();
    assert_eq!(vec!["3", "1", "2"], ids);
    assert_eq!(EpisodeObject::from(&episodes[1]), objects[1]);

    let podcasts = vec![podcast(20), podcast(10)];
    let objects = podcast_objects(&podcasts);
    let ids: Vec<&str> = objects.iter().map(|object| object.id.as_str()).collect();
    assert_eq!(vec!["20", "10"], ids);

    assert!(episode_objects(&Vec::new()).is_empty());
    assert!(podcast_objects(&Vec::new()).is_empty());
}

#[test]
fn test_parse_podcast_id() {
    assert_eq!(Ok(42), parse_podcast_id("42"));
    assert_eq!(Ok(-1), parse_podcast_id("-1"));
    assert_eq!(
        Err(Error {
            kind: ErrorKind::Internal("invalid digit found in string".to_string()),
            context: vec!["Error parsing podcast ID".to_string()],
        }),
        parse_podcast_id("abc")
    );
    assert_eq!(
        Err(Error {
            kind: ErrorKind::Internal("cannot parse integer from empty string".to_string()),
            context: vec!["Error parsing podcast ID".to_string()],
        }),
        parse_podcast_id("")
    );
}

#[test]
fn test_query_limits() {
    assert_eq!(50, EPISODE_LIMIT);
    assert_eq!(5, PODCAST_LIMIT);
}
