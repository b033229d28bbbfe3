//! A feed document as the engine reads it: the fields of the channel and of
//! its entries, none of them interpreted yet.

use crate::error::{outcome_view, SyncError, SyncErrorView};
use vstd::prelude::*;

verus! {

/// A media file that an entry carries.
#[derive(Clone, Debug, PartialEq, Eq)]
pub struct Media {
    pub url: String,
    pub mime_type: String,
}

/// One entry of a document. Every field may be missing in the source.
#[derive(Clone, Debug, PartialEq, Eq)]
pub struct Entry {
    pub title: Option<String>,
    pub link: Option<String>,
    pub description: Option<String>,
    pub content: Option<String>,
    pub pub_date: Option<String>,
    /// The dates of the entry's Dublin Core metadata, where it has such.
    pub dc_dates: Option<Vec<String>>,
    pub enclosure: Option<Media>,
    /// The address of the feed that the entry was taken from.
    pub source_url: Option<String>,
}

/// A parsed feed document.
#[derive(Clone, Debug, PartialEq, Eq)]
pub struct Document {
    pub title: String,
    pub link: String,
    pub pub_date: Option<String>,
    pub last_build_date: Option<String>,
    /// The dates of the channel's Dublin Core metadata, where it has such.
    pub dc_dates: Option<Vec<String>>,
    pub entries: Vec<Entry>,
}

/// The model of `Media` that contracts speak of.
pub struct MediaView {
    pub url: Seq<char>,
    pub mime_type: Seq<char>,
}

/// The model of `Entry` that contracts speak of.
pub struct EntryView {
    pub title: Option<Seq<char>>,
    pub link: Option<Seq<char>>,
    pub description: Option<Seq<char>>,
    pub content: Option<Seq<char>>,
    pub pub_date: Option<Seq<char>>,
    pub dc_dates: Option<Seq<Seq<char>>>,
    pub enclosure: Option<MediaView>,
    pub source_url: Option<Seq<char>>,
}

/// The model of `Document` that contracts speak of.
pub struct DocumentView {
    pub title: Seq<char>,
    pub link: Seq<char>,
    pub pub_date: Option<Seq<char>>,
    pub last_build_date: Option<Seq<char>>,
    pub dc_dates: Option<Seq<Seq<char>>>,
    pub entries: Seq<EntryView>,
}

impl DeepView for Media {
    type V = MediaView;

    open spec fn deep_view(&self) -> MediaView {
        MediaView { url: self.url@, mime_type: self.mime_type@ }
    }
}

impl View for Media {
    type V = MediaView;

    open spec fn view(&self) -> MediaView {
        self.deep_view()
    }
}

impl DeepView for Entry {
    type V = EntryView;

    open spec fn deep_view(&self) -> EntryView {
        EntryView {
            title: self.title.deep_view(),
            link: self.link.deep_view(),
            description: self.description.deep_view(),
            content: self.content.deep_view(),
            pub_date: self.pub_date.deep_view(),
            dc_dates: self.dc_dates.deep_view(),
            enclosure: self.enclosure.deep_view(),
            source_url: self.source_url.deep_view(),
        }
    }
}

impl View for Entry {
    type V = EntryView;

    open spec fn view(&self) -> EntryView {
        self.deep_view()
    }
}

impl DeepView for Document {
    type V = DocumentView;

    open spec fn deep_view(&self) -> DocumentView {
        DocumentView {
            title: self.title@,
            link: self.link@,
            pub_date: self.pub_date.deep_view(),
            last_build_date: self.last_build_date.deep_view(),
            dc_dates: self.dc_dates.deep_view(),
            entries: self.entries.deep_view(),
        }
    }
}

impl View for Document {
    type V = DocumentView;

    open spec fn view(&self) -> DocumentView {
        self.deep_view()
    }
}

/// Declares `rss::Error`, the error of `rss::Channel::read_from`. Nothing is
/// read out of it.
#[verifier::external_type_specification]
#[verifier::external_body]
pub struct ExRssError(rss::Error);

/// The document that `rss::Channel::read_from` reads out of `bytes`, or
/// nothing where it reports an error.
pub uninterp spec fn rss_channel(bytes: Seq<u8>) -> Option<DocumentView>;

/// Calls `rss::Channel::read_from` and moves the fields that the engine
/// reads out of the channel and its items. Trusted: whether the bytes parse,
/// and into what, is a function of the bytes.
#[verifier::external_body]
fn read_channel(bytes: &[u8]) -> (r: Result<Document, rss::Error>)
    ensures
        match r {
            Ok(document) => rss_channel(bytes@) == Some(document@),
            Err(_) => rss_channel(bytes@) is None,
        },
{
    let channel = rss::Channel::read_from(bytes)?;
    let entries = channel.items.into_iter().map(|i| Entry {
        title: i.title, link: i.link, description: i.description, content: i.content,
        pub_date: i.pub_date, dc_dates: i.dublin_core_ext.map(|d| d.dates),
        enclosure: i.enclosure.map(|e| Media { url: e.url, mime_type: e.mime_type }),
        source_url: i.source.map(|s| s.url),
    }).collect();
    Ok(Document {
        title: channel.title, link: channel.link, pub_date: channel.pub_date,
        last_build_date: channel.last_build_date,
        dc_dates: channel.dublin_core_ext.map(|d| d.dates), entries,
    })
}

/// The document that bytes parse into, or a format error where they are no
/// feed document.
pub open spec fn parsed_document(bytes: Seq<u8>) -> Result<DocumentView, SyncErrorView> {
    match rss_channel(bytes) {
        Some(document) => Ok(document),
        None => Err(SyncErrorView::Format),
    }
}

/// Parses the bytes of a fetched document. Bytes that are no feed document
/// give a format error.
pub fn parse_document(bytes: &[u8]) -> (r: Result<Document, SyncError>)
    ensures
        outcome_view(r) == parsed_document(bytes@),
{
    match read_channel(bytes) {
        Ok(document) => Ok(document),
        Err(_) => Err(SyncError::Format),
    }
}

} // verus!
