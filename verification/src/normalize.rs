//! The article normalizer: from an entry of a document to the article that
//! the store is to hold.

use crate::dates::{normalized_date, parse_rss_date};
use crate::document::{Entry, EntryView, Media, MediaView};
use crate::models::{NewItem, NewItemView, UNTITLED};
use crate::text::{copy_of, starts_with, text_or};
use crate::timestamp::Timestamp;
use vstd::prelude::*;
use vstd::string::{StrSliceExecFns, StringExecFns};

verus! {

/// The body of an article whose source gave neither content nor description.
pub const NO_BODY: &'static str =
    "They didn't give us any content. Click the link to view article (hopefully ðŸ¥µ).";

/// Whether the part of a MIME type before its first slash is `kind`, for a
/// `kind` without a slash.
pub open spec fn is_media_kind(mime: Seq<char>, kind: Seq<char>) -> bool {
    kind.is_prefix_of(mime) && (mime.len() == kind.len() || mime[kind.len() as int] == '/')
}

/// The tag that embeds a media file: an audio or a video player or an image,
/// by the kind of the file, and nothing for a file of another kind.
pub open spec fn enclosure_markup(media: Option<MediaView>) -> Option<Seq<char>> {
    match media {
        Some(m) => {
            if is_media_kind(m.mime_type, "audio"@) {
                Some("<audio src=\""@ + m.url + "\" controls></audio>"@)
            } else if is_media_kind(m.mime_type, "video"@) {
                Some("<video src=\""@ + m.url + "\" controls></video>"@)
            } else if is_media_kind(m.mime_type, "image"@) {
                Some("<img src=\""@ + m.url + "\">"@)
            } else {
                None
            }
        },
        None => None,
    }
}

/// Tests `is_media_kind`.
pub fn has_media_kind(mime: &str, kind: &str) -> (r: bool)
    ensures
        r == is_media_kind(mime@, kind@),
{
    if !starts_with(mime, kind) {
        return false;
    }
    let after: usize = kind.unicode_len();
    mime.unicode_len() == after || mime.get_char(after) == '/'
}

/// Renders the media file of an entry as a tag that embeds it.
pub fn create_enclosure_html(maybe_media: Option<&Media>) -> (r: Option<String>)
    ensures
        r.deep_view() == enclosure_markup(maybe_media.deep_view()),
{
    match maybe_media {
        Some(media) => {
            let mime = media.mime_type.as_str();
            let url = media.url.as_str();
            if has_media_kind(mime, "audio") {
                Some(String::from_str("<audio src=\"").concat(url).concat("\" controls></audio>"))
            } else if has_media_kind(mime, "video") {
                Some(String::from_str("<video src=\"").concat(url).concat("\" controls></video>"))
            } else if has_media_kind(mime, "image") {
                Some(String::from_str("<img src=\"").concat(url).concat("\">"))
            } else {
                None
            }
        },
        None => None,
    }
}

/// An entry of a fetched document in normal form, of which it is not known
/// yet whether its feed has it already.
#[derive(Clone, Debug, PartialEq, Eq)]
pub struct Candidate {
    pub url: Option<String>,
    pub title: Option<String>,
    pub content: String,
    /// The publish timestamp that the entry states, where it states one
    /// that can be read.
    pub pub_date: Option<Timestamp>,
}

/// The model of `Candidate` that contracts speak of.
pub struct CandidateView {
    pub url: Option<Seq<char>>,
    pub title: Option<Seq<char>>,
    pub content: Seq<char>,
    pub pub_date: Option<Timestamp>,
}

impl DeepView for Candidate {
    type V = CandidateView;

    open spec fn deep_view(&self) -> CandidateView {
        CandidateView {
            url: self.url.deep_view(),
            title: self.title.deep_view(),
            content: self.content@,
            pub_date: self.pub_date,
        }
    }
}

impl View for Candidate {
    type V = CandidateView;

    open spec fn view(&self) -> CandidateView {
        self.deep_view()
    }
}

/// The first of a list of dates, where there is a list and it is not empty.
pub open spec fn first_date(dates: Option<Seq<Seq<char>>>) -> Option<Seq<char>> {
    match dates {
        Some(list) => if list.len() > 0 {
            Some(list[0])
        } else {
            None
        },
        None => None,
    }
}

/// The date field that an entry is dated by: its own, or else the first of
/// its metadata.
pub open spec fn entry_date_text(entry: EntryView) -> Option<Seq<char>> {
    match entry.pub_date {
        Some(date) => Some(date),
        None => first_date(entry.dc_dates),
    }
}

/// The publish timestamp that an entry states, if it states one that can
/// be read.
pub open spec fn entry_timestamp(entry: EntryView) -> Option<Timestamp> {
    normalized_date(entry_date_text(entry))
}

/// The address of an entry: its link, or else that of its source.
pub open spec fn entry_url(entry: EntryView) -> Option<Seq<char>> {
    match entry.link {
        Some(link) => Some(link),
        None => entry.source_url,
    }
}

/// The body of an entry: the tag for its media file, if any, and then its
/// content, or else its description, or else a placeholder.
pub open spec fn entry_body(entry: EntryView) -> Seq<char> {
    text_or(enclosure_markup(entry.enclosure), Seq::empty()) + (match entry.content {
        Some(content) => content,
        None => text_or(entry.description, NO_BODY@),
    })
}

/// The normal form of an entry.
pub open spec fn candidate_of(entry: EntryView) -> CandidateView {
    CandidateView {
        url: entry_url(entry),
        title: entry.title,
        content: entry_body(entry),
        pub_date: entry_timestamp(entry),
    }
}

/// The article that a candidate becomes in the feed `feed_id`: titled by a
/// placeholder where it has no title, dated `default_date` where it has no
/// date, and unread.
pub open spec fn article_of(
    candidate: CandidateView,
    feed_id: i32,
    default_date: Timestamp,
) -> NewItemView {
    NewItemView {
        url: candidate.url,
        feed_id,
        pub_date: match candidate.pub_date {
            Some(date) => date,
            None => default_date,
        },
        content: candidate.content,
        title: text_or(candidate.title, UNTITLED@),
        read: false,
    }
}

/// The article that an entry becomes in the feed `feed_id`, dated
/// `default_date` where the entry states no date that can be read.
pub open spec fn normalized(
    entry: EntryView,
    feed_id: i32,
    default_date: Timestamp,
) -> NewItemView {
    article_of(candidate_of(entry), feed_id, default_date)
}

/// Picks the first of a list of dates.
pub fn first_of(dates: &Option<Vec<String>>) -> (r: Option<&str>)
    ensures
        r.deep_view() == first_date(dates.deep_view()),
{
    match dates {
        Some(list) => if list.len() > 0 {
            Some(list[0].as_str())
        } else {
            None
        },
        None => None,
    }
}

/// Reads the publish timestamp that an entry states.
pub fn entry_date(entry: &Entry) -> (r: Option<Timestamp>)
    ensures
        r == entry_timestamp(entry@),
        r matches Some(t) ==> t.wf(),
{
    match &entry.pub_date {
        Some(date) => parse_rss_date(Some(date.as_str())),
        None => parse_rss_date(first_of(&entry.dc_dates)),
    }
}

/// Brings one entry of a document into normal form. Nothing about an entry
/// is an error: a date that cannot be read counts as none.
pub fn candidate(item: &Entry) -> (r: Candidate)
    ensures
        r@ == candidate_of(item@),
        r.pub_date matches Some(t) ==> t.wf(),
{
    let media = match create_enclosure_html(item.enclosure.as_ref()) {
        Some(markup) => markup,
        None => String::new(),
    };
    let content = match &item.content {
        Some(content) => media.concat(content.as_str()),
        None => match &item.description {
            Some(description) => media.concat(description.as_str()),
            None => media.concat(NO_BODY),
        },
    };
    let url = match &item.link {
        Some(link) => Some(link.clone()),
        None => copy_of(&item.source_url),
    };
    Candidate { url, title: copy_of(&item.title), content, pub_date: entry_date(item) }
}

impl Candidate {
    /// Makes the candidate an article of the feed `feed_id`.
    pub fn into_article(self, feed_id: i32, default_date: Timestamp) -> (r: NewItem)
        ensures
            r@ == article_of(self@, feed_id, default_date),
    {
        NewItem {
            url: self.url,
            feed_id,
            pub_date: match self.pub_date {
                Some(date) => date,
                None => default_date,
            },
            content: self.content,
            title: match self.title {
                Some(title) => title,
                None => String::from_str(UNTITLED),
            },
            read: false,
        }
    }
}

/// Normalizes one entry of a document into an article of the feed
/// `feed_id`. Nothing about an entry is an error: what it lacks is filled
/// in, and a date that cannot be read gives way to `default_date`.
pub fn new_item(item: &Entry, feed_id: i32, default_date: Timestamp) -> (r: NewItem)
    ensures
        r@ == normalized(item@, feed_id, default_date),
        default_date.wf() ==> r.pub_date.wf(),
{
    candidate(item).into_article(feed_id, default_date)
}

} // verus!
