//! The novelty classifier: whether a feed has an entry already.

use crate::document::{Entry, EntryView};
use crate::models::{Item, ItemView};
use crate::normalize::{candidate, candidate_of, Candidate, CandidateView};
use crate::timestamp::Timestamp;
use vstd::prelude::*;

verus! {

/// The titles of the stored articles that have one.
pub open spec fn known_titles(stored: Seq<ItemView>) -> Set<Seq<char>> {
    Set::new(
        |title: Seq<char>|
            exists|i: int| 0 <= i < stored.len() && (#[trigger] stored[i]).title == Some(title),
    )
}

/// Whether a candidate is new to a feed with the watermark `watermark` and
/// stored articles titled `titles`. The first rule that applies decides: a
/// candidate with a date is new exactly if that date is later than the
/// watermark; else a candidate with a title is new exactly if no stored
/// article has that title, letter for letter; a candidate with neither is
/// new.
pub open spec fn is_new(
    candidate: CandidateView,
    watermark: Timestamp,
    titles: Set<Seq<char>>,
) -> bool {
    match candidate.pub_date {
        Some(date) => date.after(watermark),
        None => match candidate.title {
            Some(title) => !titles.contains(title),
            None => true,
        },
    }
}

/// Whether an entry of a document is new to a feed.
pub open spec fn is_new_entry(
    entry: EntryView,
    watermark: Timestamp,
    titles: Set<Seq<char>>,
) -> bool {
    is_new(candidate_of(entry), watermark, titles)
}

/// Tests whether one of the stored articles is titled `title`.
pub fn has_title(old_items: &[Item], title: &String) -> (r: bool)
    ensures
        r == known_titles(old_items.deep_view()).contains(title@),
{
    let mut i: usize = 0;
    while i < old_items.len()
        invariant
            i <= old_items.len(),
            forall|k: int|
                0 <= k < i ==> (#[trigger] old_items.deep_view()[k]).title != Some(title@),
        decreases old_items.len() - i,
    {
        match &old_items[i].title {
            Some(stored) => {
                if *stored == *title {
                    assert(old_items.deep_view()[i as int].title == Some(title@));
                    return true;
                }
            },
            None => {},
        }
        i += 1;
    }
    false
}

impl Candidate {
    /// Decides whether the candidate is new to a feed whose watermark is
    /// `watermark` and whose stored articles are `old_items`.
    pub fn is_new(&self, watermark: Timestamp, old_items: &[Item]) -> (r: bool)
        ensures
            r == is_new(self@, watermark, known_titles(old_items.deep_view())),
    {
        match &self.pub_date {
            Some(date) => date.is_after(&watermark),
            None => match &self.title {
                Some(title) => !has_title(old_items, title),
                None => true,
            },
        }
    }
}

/// Decides whether an entry of a fetched document is new to its feed, whose
/// watermark is `newest_article_date` and whose stored articles are
/// `old_items`.
pub fn item_is_not_in_db(item: &Entry, newest_article_date: Timestamp, old_items: &[Item]) -> (r:
    bool)
    ensures
        r == is_new_entry(item@, newest_article_date, known_titles(old_items.deep_view())),
{
    candidate(item).is_new(newest_article_date, old_items)
}

/// A candidate without a date and with a title is new exactly if no stored
/// article has its title.
pub proof fn undated_candidate_is_new_iff_title_unknown(
    candidate: CandidateView,
    watermark: Timestamp,
    stored: Seq<ItemView>,
)
    requires
        candidate.pub_date is None,
        candidate.title is Some,
    ensures
        is_new(candidate, watermark, known_titles(stored)) <==> forall|i: int|
            0 <= i < stored.len() ==> (#[trigger] stored[i]).title != candidate.title,
{
}

} // verus!
