use feed_sync::batch::{
    fetch_target, is_subscribed, refresh_all_channels, refresh_one, refresh_read, subscribed_feeds,
    tally, FeedFetch, Tally,
};
use feed_sync::error::SyncError;
use feed_sync::models::{Channel, Item, NewItem};
use feed_sync::sync::{read_response, refresh_feed, Merge};
use feed_sync::timestamp::Timestamp;

fn at(year: i32, month: u32, day: u32, hour: u32, minute: u32, second: u32) -> Timestamp {
    Timestamp { year, month, day, hour, minute, second, nanos: 0 }
}

fn feed(id: i32, url: Option<&str>) -> Channel {
    Channel {
        id,
        url: url.map(|u| u.to_string()),
        subscribed: Some(true),
        pub_date: at(2024, 1, 1, 0, 0, 0),
        title: Some(format!("feed {}", id)),
    }
}

fn bytes_of(title: &str, date: &str) -> Vec<u8> {
    format!(
        "<rss version=\"2.0\"><channel><title>t</title><link>l</link>\
         <item><title>{}</title><pubDate>{}</pubDate></item></channel></rss>",
        title, date
    )
    .into_bytes()
}

fn one_article(feed_id: i32, title: &str, pub_date: Timestamp) -> Vec<NewItem> {
    vec![NewItem {
        url: None,
        feed_id,
        pub_date,
        content: feed_sync::normalize::NO_BODY.to_string(),
        title: title.to_string(),
        read: false,
    }]
}

#[test]
fn a_feed_is_fetched_at_its_formatted_address() {
    assert_eq!(fetch_target(&feed(1, Some("example.com/rss"))), Ok("https://example.com/rss".to_string()));
    assert_eq!(
        fetch_target(&feed(1, Some("http://example.com/rss"))),
        Ok("http://example.com/rss".to_string())
    );
}

#[test]
fn a_feed_without_address_is_a_data_shape_error() {
    assert_eq!(fetch_target(&feed(1, None)), Err(SyncError::DataShape));
    let fetch = FeedFetch {
        feed: feed(1, None),
        old_items: vec![],
        response: Ok(bytes_of("a", "Tue, 02 Jan 2024 00:00:00 +0000")),
    };
    assert_eq!(refresh_one(&fetch, at(2024, 2, 1, 0, 0, 0)), Err(SyncError::DataShape));
}

#[test]
fn a_feed_whose_flag_was_never_set_is_subscribed() {
    let mut f = feed(1, Some("example.com/rss"));
    assert!(is_subscribed(&f));
    f.subscribed = None;
    assert!(is_subscribed(&f));
    f.subscribed = Some(false);
    assert!(!is_subscribed(&f));
}

#[test]
fn one_feed_is_refreshed_from_its_response() {
    let now = at(2024, 2, 1, 0, 0, 0);
    let bytes = bytes_of("a", "Tue, 02 Jan 2024 00:00:00 +0000");
    let fetch = FeedFetch {
        feed: feed(1, Some("example.com/rss")),
        old_items: vec![],
        response: Ok(bytes.clone()),
    };
    let document = read_response(&Ok(bytes)).unwrap();
    assert_eq!(refresh_one(&fetch, now), Ok(refresh_feed(&fetch.feed, &document, &[], now)));
    assert_eq!(
        refresh_one(&fetch, now),
        Ok(Merge {
            feed_id: 1,
            new_items: one_article(1, "a", at(2024, 1, 2, 0, 0, 0)),
            watermark: at(2024, 1, 1, 0, 0, 0),
        })
    );
}

#[test]
fn one_failed_fetch_leaves_the_other_feeds_their_merges() {
    let now = at(2024, 2, 1, 0, 0, 0);
    let batch = vec![
        FeedFetch {
            feed: feed(1, Some("one.example/rss")),
            old_items: vec![],
            response: Ok(bytes_of("a", "Tue, 02 Jan 2024 00:00:00 +0000")),
        },
        FeedFetch {
            feed: feed(2, Some("two.example/rss")),
            old_items: vec![],
            response: Err("timed out".to_string()),
        },
        FeedFetch {
            feed: feed(3, Some("three.example/rss")),
            old_items: vec![],
            response: Ok(bytes_of("c", "Wed, 03 Jan 2024 00:00:00 +0000")),
        },
    ];
    let got = refresh_all_channels(&batch, now);
    assert_eq!(got.len(), 3);
    assert_eq!(tally(&got), Tally { merged: 2, failed: 1 });
    assert_eq!(got.iter().filter(|o| o.is_ok()).count(), 2);
    assert_eq!(got.iter().filter(|o| o.is_err()).count(), 1);
    assert_eq!(got[1], Err(SyncError::Transport("timed out".to_string())));
    assert_eq!(
        got[0],
        Ok(Merge {
            feed_id: 1,
            new_items: one_article(1, "a", at(2024, 1, 2, 0, 0, 0)),
            watermark: at(2024, 1, 1, 0, 0, 0),
        })
    );
    assert_eq!(
        got[2],
        Ok(Merge {
            feed_id: 3,
            new_items: one_article(3, "c", at(2024, 1, 3, 0, 0, 0)),
            watermark: at(2024, 1, 1, 0, 0, 0),
        })
    );
    for (fetch, outcome) in batch.iter().zip(got.iter()) {
        assert_eq!(&refresh_one(fetch, now), outcome);
    }
}

#[test]
fn every_kind_of_failure_stays_with_its_feed() {
    let now = at(2024, 2, 1, 0, 0, 0);
    let stored = vec![Item {
        id: 1,
        url: None,
        feed_id: Some(4),
        read: None,
        pub_date: at(2023, 1, 1, 0, 0, 0),
        content: None,
        title: Some("known".to_string()),
    }];
    let batch = vec![
        FeedFetch { feed: feed(1, None), old_items: vec![], response: Err("no address".to_string()) },
        FeedFetch {
            feed: feed(2, Some("two.example/rss")),
            old_items: vec![],
            response: Ok(b"<html></html>".to_vec()),
        },
        FeedFetch {
            feed: feed(3, Some("three.example/rss")),
            old_items: vec![],
            response: Err("dns".to_string()),
        },
        FeedFetch {
            feed: feed(4, Some("four.example/rss")),
            old_items: stored,
            response: Ok(bytes_of("known", "never")),
        },
    ];
    let got = refresh_all_channels(&batch, now);
    assert_eq!(
        got,
        vec![
            Err(SyncError::DataShape),
            Err(SyncError::Format),
            Err(SyncError::Transport("dns".to_string())),
            Ok(Merge { feed_id: 4, new_items: vec![], watermark: at(2024, 1, 1, 0, 0, 0) }),
        ]
    );
}

#[test]
fn an_empty_batch_has_no_outcome() {
    assert_eq!(refresh_all_channels(&[], at(2024, 2, 1, 0, 0, 0)), vec![]);
}

#[test]
fn the_outcomes_of_a_batch_are_counted() {
    let merge = Merge { feed_id: 1, new_items: vec![], watermark: at(2024, 1, 1, 0, 0, 0) };
    assert_eq!(tally(&[]), Tally { merged: 0, failed: 0 });
    assert_eq!(
        tally(&[Ok(merge.clone()), Err(SyncError::Format), Ok(merge), Err(SyncError::DataShape)]),
        Tally { merged: 2, failed: 2 }
    );
    assert_eq!(tally(&[Err(SyncError::Transport("x".to_string()))]), Tally { merged: 0, failed: 1 });
}

#[test]
fn a_feed_is_refreshed_by_what_was_read_for_it() {
    let now = at(2024, 2, 1, 0, 0, 0);
    let f = feed(1, Some("example.com/rss"));
    let document = read_response(&Ok(bytes_of("a", "Tue, 02 Jan 2024 00:00:00 +0000"))).unwrap();
    assert_eq!(
        refresh_read(&f, Ok(document.clone()), &[], now),
        Ok(refresh_feed(&f, &document, &[], now))
    );
    assert_eq!(refresh_read(&f, Err(SyncError::Format), &[], now), Err(SyncError::Format));
    assert_eq!(
        refresh_read(&f, Err(SyncError::Transport("t".to_string())), &[], now),
        Err(SyncError::Transport("t".to_string()))
    );
    assert_eq!(refresh_read(&feed(1, None), Ok(document), &[], now), Err(SyncError::DataShape));
    assert_eq!(
        refresh_read(&feed(1, None), Err(SyncError::Format), &[], now),
        Err(SyncError::DataShape)
    );
}

#[test]
fn a_batch_is_made_of_the_feeds_that_are_followed() {
    let mut dropped = feed(2, Some("two.example/rss"));
    dropped.subscribed = Some(false);
    let mut unset = feed(3, None);
    unset.subscribed = None;
    let feeds = vec![feed(1, Some("one.example/rss")), dropped, unset.clone()];
    assert_eq!(subscribed_feeds(feeds), vec![feed(1, Some("one.example/rss")), unset]);
    assert_eq!(subscribed_feeds(vec![]), vec![]);
}
