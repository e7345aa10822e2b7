use podcore::model::insertable;
use podcore::model::{AccountPodcast, AccountPodcastEpisode, Timestamp};
use podcore::store::{AccountPodcastEpisodeTable, AccountPodcastTable, Failure};

fn at(secs: i64) -> Timestamp {
    Timestamp { secs, nanos: 250 }
}

fn subscription(account_id: i64, podcast_id: i64, secs: i64) -> insertable::AccountPodcast {
    insertable::AccountPodcast {
        account_id,
        podcast_id,
        subscribed_at: Some(at(secs)),
        unsubscribed_at: None,
    }
}

#[test]
fn test_subscription_table_starts_empty() {
    let table = AccountPodcastTable::new();
    assert_eq!(0, table.len());
    assert!(!table.contains(1, 1));
    assert_eq!(None, table.get(1, 1));
}

#[test]
fn test_subscription_table_upsert_inserts_and_overwrites() {
    let mut table = AccountPodcastTable::new();
    let first = table.upsert(&subscription(1, 2, 10)).unwrap();
    assert_eq!(
        AccountPodcast {
            id: 1,
            account_id: 1,
            podcast_id: 2,
            subscribed_at: Some(at(10)),
            unsubscribed_at: None,
        },
        first
    );
    let second = table.upsert(&subscription(2, 1, 11)).unwrap();
    assert_eq!(2, second.id);
    assert_eq!(2, table.len());

    // On conflict the new values are taken, both of them.
    let values = insertable::AccountPodcast {
        account_id: 1,
        podcast_id: 2,
        subscribed_at: None,
        unsubscribed_at: Some(at(12)),
    };
    let again = table.upsert(&values).unwrap();
    assert_eq!(
        AccountPodcast {
            id: 1,
            account_id: 1,
            podcast_id: 2,
            subscribed_at: None,
            unsubscribed_at: Some(at(12)),
        },
        again
    );
    assert_eq!(2, table.len());
    assert_eq!(Some(again), table.get(1, 2));
    assert_eq!(Some(second), table.get(2, 1));
    assert!(table.contains(1, 2));
    assert!(!table.contains(2, 2));
}

#[test]
fn test_subscription_table_mark_unsubscribed() {
    let mut table = AccountPodcastTable::new();
    assert_eq!(Err(Failure::NotFound), table.mark_unsubscribed(1, 2, at(5)));
    assert_eq!(0, table.len());

    table.upsert(&subscription(1, 2, 10)).unwrap();
    table.upsert(&subscription(1, 3, 10)).unwrap();
    let row = table.mark_unsubscribed(1, 3, at(20)).unwrap();
    assert_eq!(
        AccountPodcast {
            id: 2,
            account_id: 1,
            podcast_id: 3,
            subscribed_at: Some(at(10)),
            unsubscribed_at: Some(at(20)),
        },
        row
    );
    assert_eq!(None, table.get(1, 2).unwrap().unsubscribed_at);
    assert_eq!(Err(Failure::NotFound), table.mark_unsubscribed(3, 1, at(5)));
    assert_eq!(2, table.len());
}

#[test]
fn test_subscription_table_ids_are_not_reused() {
    let mut table = AccountPodcastTable::new();
    let mut ids = Vec::new();
    for podcast_id in [5, 6, 5, 7, 6, 8] {
        ids.push(table.upsert(&subscription(1, podcast_id, 0)).unwrap().id);
    }
    assert_eq!(vec![1, 2, 1, 3, 2, 4], ids);
    assert_eq!(4, table.len());
}

#[test]
fn test_progress_table() {
    let mut table = AccountPodcastEpisodeTable::new();
    assert_eq!(0, table.len());
    assert_eq!(None, table.get(1, 1));

    let values = insertable::AccountPodcastEpisode {
        account_podcast_id: 1,
        episode_id: 9,
        listened_seconds: Some(60),
        played: false,
    };
    let row = table.upsert(&values).unwrap();
    assert_eq!(
        AccountPodcastEpisode {
            id: 1,
            account_podcast_id: 1,
            episode_id: 9,
            listened_seconds: Some(60),
            played: false,
        },
        row
    );

    let values = insertable::AccountPodcastEpisode { listened_seconds: Some(30), ..values };
    let row = table.upsert(&values).unwrap();
    assert_eq!(1, row.id);
    assert_eq!(Some(30), row.listened_seconds);
    assert_eq!(1, table.len());

    let other = insertable::AccountPodcastEpisode { episode_id: 10, played: true, ..values };
    assert_eq!(2, table.upsert(&other).unwrap().id);
    assert_eq!(2, table.len());
    assert_eq!(Some(row), table.get(1, 9));
    assert_eq!(None, table.get(9, 1));
}

#[test]
fn test_failure_messages() {
    assert_eq!("Id sequence exhausted", Failure::SequenceExhausted.message());
    assert_eq!("Record not found", Failure::NotFound.message());
}
