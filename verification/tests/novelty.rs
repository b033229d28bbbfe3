use feed_sync::document::Entry;
use feed_sync::models::Item;
use feed_sync::normalize::{candidate, Candidate};
use feed_sync::novelty::{has_title, item_is_not_in_db};
use feed_sync::timestamp::Timestamp;

fn at(year: i32, month: u32, day: u32, hour: u32, minute: u32, second: u32) -> Timestamp {
    Timestamp { year, month, day, hour, minute, second, nanos: 0 }
}

fn entry(title: Option<&str>, pub_date: Option<&str>) -> Entry {
    Entry {
        title: title.map(|t| t.to_string()),
        link: None,
        description: None,
        content: None,
        pub_date: pub_date.map(|d| d.to_string()),
        dc_dates: None,
        enclosure: None,
        source_url: None,
    }
}

fn stored(id: i32, title: Option<&str>) -> Item {
    Item {
        id,
        url: None,
        feed_id: Some(1),
        read: Some(false),
        pub_date: at(2023, 1, 1, 0, 0, 0),
        content: None,
        title: title.map(|t| t.to_string()),
    }
}

#[test]
fn a_dated_entry_is_new_if_later_than_the_watermark() {
    let watermark = at(2024, 1, 1, 0, 0, 0);
    let e = entry(Some("known"), Some("Mon, 01 Jan 2024 12:00:00 +0000"));
    assert!(item_is_not_in_db(&e, watermark, &[stored(1, Some("known"))]));
}

#[test]
fn a_dated_entry_at_the_watermark_is_not_new() {
    let watermark = at(2024, 1, 1, 0, 0, 0);
    let e = entry(Some("unknown"), Some("Mon, 01 Jan 2024 00:00:00 +0000"));
    assert!(!item_is_not_in_db(&e, watermark, &[]));
}

#[test]
fn a_dated_entry_before_the_watermark_is_not_new() {
    let watermark = at(2024, 1, 1, 0, 0, 0);
    let e = entry(Some("unknown"), Some("Sun, 31 Dec 2023 00:00:00 +0000"));
    assert!(!item_is_not_in_db(&e, watermark, &[]));
}

#[test]
fn an_entry_dated_by_its_metadata_is_judged_by_that_date() {
    let watermark = at(2024, 1, 1, 0, 0, 0);
    let mut e = entry(Some("known"), None);
    e.dc_dates = Some(vec!["2024-01-01T00:00:01".to_string()]);
    assert!(item_is_not_in_db(&e, watermark, &[stored(1, Some("known"))]));
    e.dc_dates = Some(vec!["2023-12-31T23:59:59".to_string()]);
    assert!(!item_is_not_in_db(&e, watermark, &[]));
}

#[test]
fn an_undated_entry_with_a_stored_title_is_not_new() {
    let watermark = at(2024, 1, 1, 0, 0, 0);
    let e = entry(Some("known"), None);
    let old = vec![stored(1, Some("other")), stored(2, Some("known"))];
    assert!(!item_is_not_in_db(&e, watermark, &old));
}

#[test]
fn an_undated_entry_with_an_unknown_title_is_new() {
    let watermark = at(2024, 1, 1, 0, 0, 0);
    let e = entry(Some("fresh"), None);
    let old = vec![stored(1, Some("other")), stored(2, Some("known")), stored(3, None)];
    assert!(item_is_not_in_db(&e, watermark, &old));
    assert!(item_is_not_in_db(&e, watermark, &[]));
}

#[test]
fn titles_are_compared_letter_for_letter() {
    let watermark = at(2024, 1, 1, 0, 0, 0);
    let old = vec![stored(1, Some("Known"))];
    assert!(item_is_not_in_db(&entry(Some("known"), None), watermark, &old));
    assert!(item_is_not_in_db(&entry(Some("Known "), None), watermark, &old));
    assert!(!item_is_not_in_db(&entry(Some("Known"), None), watermark, &old));
}

#[test]
fn an_entry_with_an_unreadable_date_is_judged_by_its_title() {
    let watermark = at(2024, 1, 1, 0, 0, 0);
    let old = vec![stored(1, Some("known"))];
    assert!(!item_is_not_in_db(&entry(Some("known"), Some("tomorrow")), watermark, &old));
    assert!(item_is_not_in_db(&entry(Some("fresh"), Some("tomorrow")), watermark, &old));
}

#[test]
fn an_entry_without_date_and_title_is_new() {
    let watermark = at(2024, 1, 1, 0, 0, 0);
    let old = vec![stored(1, Some("known")), stored(2, None)];
    assert!(item_is_not_in_db(&entry(None, None), watermark, &old));
}

#[test]
fn a_stored_title_is_found() {
    let old = vec![stored(1, None), stored(2, Some("a")), stored(3, Some("b"))];
    assert!(has_title(&old, &"a".to_string()));
    assert!(has_title(&old, &"b".to_string()));
    assert!(!has_title(&old, &"c".to_string()));
    assert!(!has_title(&old, &"".to_string()));
    assert!(!has_title(&[], &"a".to_string()));
}

fn candidate_with(title: Option<&str>, pub_date: Option<Timestamp>) -> Candidate {
    Candidate { url: None, title: title.map(|t| t.to_string()), content: String::new(), pub_date }
}

#[test]
fn a_candidate_is_judged_by_its_date_first() {
    let watermark = at(2024, 1, 1, 0, 0, 0);
    let old = vec![stored(1, Some("known"))];
    assert!(candidate_with(Some("known"), Some(at(2024, 1, 1, 0, 0, 1))).is_new(watermark, &old));
    assert!(!candidate_with(Some("fresh"), Some(watermark)).is_new(watermark, &old));
    assert!(!candidate_with(None, Some(at(2023, 1, 1, 0, 0, 0))).is_new(watermark, &old));
}

#[test]
fn a_candidate_without_date_is_judged_by_its_title() {
    let watermark = at(2024, 1, 1, 0, 0, 0);
    let old = vec![stored(1, Some("known"))];
    assert!(!candidate_with(Some("known"), None).is_new(watermark, &old));
    assert!(candidate_with(Some("fresh"), None).is_new(watermark, &old));
    assert!(candidate_with(None, None).is_new(watermark, &old));
}

#[test]
fn an_entry_is_judged_by_way_of_its_candidate() {
    let watermark = at(2024, 1, 1, 0, 0, 0);
    let old = vec![stored(1, Some("known"))];
    let entries = vec![
        entry(Some("known"), None),
        entry(Some("fresh"), None),
        entry(Some("known"), Some("Mon, 01 Jan 2024 12:00:00 +0000")),
        entry(None, None),
    ];
    for e in entries.iter() {
        assert_eq!(item_is_not_in_db(e, watermark, &old), candidate(e).is_new(watermark, &old));
    }
}
