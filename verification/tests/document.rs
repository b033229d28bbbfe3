use feed_sync::document::{parse_document, Document, Entry, Media};
use feed_sync::error::SyncError;

const FULL: &str = r#"<?xml version="1.0" encoding="UTF-8"?>
<rss version="2.0" xmlns:dc="http://purl.org/dc/elements/1.1/"
     xmlns:content="http://purl.org/rss/1.0/modules/content/">
  <channel>
    <title>Example Feed</title>
    <link>https://example.com/</link>
    <description>An example</description>
    <pubDate>Mon, 01 Jan 2024 00:00:00 +0000</pubDate>
    <lastBuildDate>Tue, 02 Jan 2024 00:00:00 +0000</lastBuildDate>
    <dc:date>2024-01-03T00:00:00</dc:date>
    <item>
      <title>First</title>
      <link>https://example.com/first</link>
      <description>short</description>
      <content:encoded><![CDATA[<p>long</p>]]></content:encoded>
      <pubDate>Mon, 01 Jan 2024 12:00:00 +0000</pubDate>
      <dc:date>2024-01-01T12:00:00</dc:date>
      <dc:date>2024-01-01T13:00:00</dc:date>
      <enclosure url="https://example.com/a.mp3" length="123" type="audio/mpeg"/>
      <source url="https://elsewhere.example/feed">Elsewhere</source>
    </item>
    <item>
    </item>
  </channel>
</rss>"#;

#[test]
fn a_document_is_read_field_by_field() {
    let got = parse_document(FULL.as_bytes());
    let expected = Document {
        title: "Example Feed".to_string(),
        link: "https://example.com/".to_string(),
        pub_date: Some("Mon, 01 Jan 2024 00:00:00 +0000".to_string()),
        last_build_date: Some("Tue, 02 Jan 2024 00:00:00 +0000".to_string()),
        dc_dates: Some(vec!["2024-01-03T00:00:00".to_string()]),
        entries: vec![
            Entry {
                title: Some("First".to_string()),
                link: Some("https://example.com/first".to_string()),
                description: Some("short".to_string()),
                content: Some("<p>long</p>".to_string()),
                pub_date: Some("Mon, 01 Jan 2024 12:00:00 +0000".to_string()),
                dc_dates: Some(vec![
                    "2024-01-01T12:00:00".to_string(),
                    "2024-01-01T13:00:00".to_string(),
                ]),
                enclosure: Some(Media {
                    url: "https://example.com/a.mp3".to_string(),
                    mime_type: "audio/mpeg".to_string(),
                }),
                source_url: Some("https://elsewhere.example/feed".to_string()),
            },
            Entry {
                title: None,
                link: None,
                description: None,
                content: None,
                pub_date: None,
                dc_dates: None,
                enclosure: None,
                source_url: None,
            },
        ],
    };
    assert_eq!(got, Ok(expected));
}

#[test]
fn a_document_without_entries_and_dates_is_read() {
    let bytes = b"<rss version=\"2.0\"><channel><title>T</title><link>L</link></channel></rss>";
    let got = parse_document(bytes);
    assert_eq!(
        got,
        Ok(Document {
            title: "T".to_string(),
            link: "L".to_string(),
            pub_date: None,
            last_build_date: None,
            dc_dates: None,
            entries: vec![],
        })
    );
}

#[test]
fn a_channel_without_title_has_an_empty_one() {
    let bytes = b"<rss version=\"2.0\"><channel></channel></rss>";
    let got = parse_document(bytes).unwrap();
    assert_eq!(got.title, "");
    assert_eq!(got.link, "");
}

#[test]
fn bytes_that_are_no_document_are_a_format_error() {
    assert_eq!(parse_document(b""), Err(SyncError::Format));
    assert_eq!(parse_document(b"not xml at all"), Err(SyncError::Format));
    assert_eq!(parse_document(b"<html><body>404</body></html>"), Err(SyncError::Format));
    assert_eq!(parse_document(b"<rss version=\"2.0\"></rss>"), Err(SyncError::Format));
    assert_eq!(parse_document(&[0xff, 0xfe, 0x00]), Err(SyncError::Format));
}

#[test]
fn parsing_the_same_bytes_twice_gives_the_same_document() {
    assert_eq!(parse_document(FULL.as_bytes()), parse_document(FULL.as_bytes()));
}

#[test]
fn every_prefix_of_a_document_is_read_or_refused() {
    let bytes = FULL.as_bytes();
    let mut read = 0;
    let mut refused = 0;
    for end in 0..=bytes.len() {
        match parse_document(&bytes[..end]) {
            Ok(_) => read += 1,
            Err(e) => {
                assert_eq!(e, SyncError::Format);
                refused += 1;
            }
        }
    }
    assert_eq!(read + refused, bytes.len() + 1);
    assert!(refused > 0);
    assert!(parse_document(bytes).is_ok());
}
