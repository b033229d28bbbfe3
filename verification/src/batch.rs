//! The batch refresh coordinator: every subscribed feed refreshed from the
//! response that was fetched for it, each feed by itself.

use crate::document::{Document, DocumentView};
use crate::error::{outcome_view, SyncError, SyncErrorView};
use crate::models::{subscribed_or_default, Channel, ChannelView, Item, ItemView};
use crate::novelty::known_titles;
use crate::sync::{
    fetched_document, format_url, formatted_url, read_response, refresh_feed, refresh_plan,
    response_view, Merge, MergeView,
};
use crate::timestamp::Timestamp;
use vstd::prelude::*;

verus! {

/// A feed with what its refresh goes by: its stored articles and the
/// response to fetching its document.
#[derive(Debug, PartialEq, Eq)]
pub struct FeedFetch {
    pub feed: Channel,
    pub old_items: Vec<Item>,
    pub response: Result<Vec<u8>, String>,
}

/// The model of `FeedFetch` that contracts speak of.
pub struct FeedFetchView {
    pub feed: ChannelView,
    pub old_items: Seq<ItemView>,
    pub response: Result<Seq<u8>, Seq<char>>,
}

impl DeepView for FeedFetch {
    type V = FeedFetchView;

    open spec fn deep_view(&self) -> FeedFetchView {
        FeedFetchView {
            feed: self.feed@,
            old_items: self.old_items.deep_view(),
            response: response_view(self.response),
        }
    }
}

impl View for FeedFetch {
    type V = FeedFetchView;

    open spec fn view(&self) -> FeedFetchView {
        self.deep_view()
    }
}

/// The address at which the document of a feed is fetched. A feed without
/// an address is a data-shape error.
pub open spec fn fetch_target_of(feed: ChannelView) -> Result<Seq<char>, SyncErrorView> {
    match feed.url {
        Some(url) => Ok(formatted_url(url)),
        None => Err(SyncErrorView::DataShape),
    }
}

/// The outcome of refreshing a feed by what was read for it: a document,
/// or the error of fetching or parsing. A feed without an address is a
/// data-shape error, whatever was read; an error that was read stays the
/// error of the feed; and a document gives the refresh of the feed by it.
pub open spec fn outcome_of(
    feed: ChannelView,
    read: Result<DocumentView, SyncErrorView>,
    old_items: Seq<ItemView>,
    now: Timestamp,
) -> Result<MergeView, SyncErrorView> {
    if feed.url is None {
        Err(SyncErrorView::DataShape)
    } else {
        match read {
            Ok(document) => Ok(refresh_plan(feed, document, known_titles(old_items), now)),
            Err(e) => Err(e),
        }
    }
}

/// The outcome of refreshing one feed of a batch: a fetch that failed is a
/// transport error, bytes that are no document are a format error, and a
/// document gives the refresh of the feed by it.
pub open spec fn refresh_outcome(fetch: FeedFetchView, now: Timestamp) -> Result<
    MergeView,
    SyncErrorView,
> {
    outcome_of(fetch.feed, fetched_document(fetch.response), fetch.old_items, now)
}

/// The outcomes of a batch: that of each feed, in the order of the batch.
pub open spec fn refresh_outcomes(batch: Seq<FeedFetchView>, now: Timestamp) -> Seq<
    Result<MergeView, SyncErrorView>,
> {
    Seq::new(batch.len(), |i: int| refresh_outcome(batch[i], now))
}

/// The number of feeds of a batch whose refresh succeeded.
pub open spec fn successes(outcomes: Seq<Result<MergeView, SyncErrorView>>) -> nat
    decreases outcomes.len(),
{
    if outcomes.len() == 0 {
        0
    } else {
        successes(outcomes.drop_last()) + if outcomes.last() is Ok {
            1nat
        } else {
            0nat
        }
    }
}

/// The number of feeds of a batch whose refresh failed.
pub open spec fn failures(outcomes: Seq<Result<MergeView, SyncErrorView>>) -> nat
    decreases outcomes.len(),
{
    if outcomes.len() == 0 {
        0
    } else {
        failures(outcomes.drop_last()) + if outcomes.last() is Err {
            1nat
        } else {
            0nat
        }
    }
}

/// Tells whether a feed is followed. A feed whose flag was never set is.
pub fn is_subscribed(feed: &Channel) -> (r: bool)
    ensures
        r == subscribed_or_default(feed.subscribed),
{
    match feed.subscribed {
        Some(flag) => flag,
        None => true,
    }
}

/// The feeds that are followed, in their order.
pub open spec fn subscribed_among(feeds: Seq<ChannelView>) -> Seq<ChannelView>
    decreases feeds.len(),
{
    if feeds.len() == 0 {
        Seq::empty()
    } else {
        let earlier = subscribed_among(feeds.drop_last());
        if subscribed_or_default(feeds.last().subscribed) {
            earlier.push(feeds.last())
        } else {
            earlier
        }
    }
}

/// Picks the feeds that are followed: those that a batch refreshes.
pub fn subscribed_feeds(feeds: Vec<Channel>) -> (r: Vec<Channel>)
    ensures
        r.deep_view() == subscribed_among(feeds.deep_view()),
{
    let ghost all = feeds.deep_view();
    let mut out: Vec<Channel> = Vec::new();
    for feed in iter: feeds
        invariant
            all == feeds.deep_view(),
            out.deep_view() == subscribed_among(all.take(iter.index())),
    {
        let ghost before = out.deep_view();
        proof {
            assert(all.take(iter.index() + 1).drop_last() =~= all.take(iter.index()));
            assert(all.take(iter.index() + 1).last() == feed@);
        }
        if is_subscribed(&feed) {
            out.push(feed);
            assert(out.deep_view() =~= before.push(feed@));
        }
    }
    assert(all.take(all.len() as int) =~= all);
    out
}

/// Gives the address at which to fetch the document of a feed.
pub fn fetch_target(feed: &Channel) -> (r: Result<String, SyncError>)
    ensures
        outcome_view(r) == fetch_target_of(feed@),
{
    match &feed.url {
        Some(url) => Ok(format_url(url.as_str())),
        None => Err(SyncError::DataShape),
    }
}

/// Refreshes a feed by what was read for it at the time `now`: a document,
/// or the error of fetching or parsing. `old_items` are the stored
/// articles of the feed.
pub fn refresh_read(
    feed: &Channel,
    read: Result<Document, SyncError>,
    old_items: &[Item],
    now: Timestamp,
) -> (r: Result<Merge, SyncError>)
    ensures
        outcome_view(r) == outcome_of(feed@, outcome_view(read), old_items.deep_view(), now),
{
    if feed.url.is_none() {
        return Err(SyncError::DataShape);
    }
    match read {
        Ok(document) => Ok(refresh_feed(feed, &document, old_items, now)),
        Err(e) => Err(e),
    }
}

/// Refreshes one feed of a batch from its response, fetched at the time
/// `now`.
pub fn refresh_one(fetch: &FeedFetch, now: Timestamp) -> (r: Result<Merge, SyncError>)
    ensures
        outcome_view(r) == refresh_outcome(fetch@, now),
{
    refresh_read(&fetch.feed, read_response(&fetch.response), fetch.old_items.as_slice(), now)
}

/// The models of the outcomes of a batch.
pub open spec fn outcome_views(outcomes: Seq<Result<Merge, SyncError>>) -> Seq<
    Result<MergeView, SyncErrorView>,
> {
    Seq::new(outcomes.len(), |i: int| outcome_view(outcomes[i]))
}

/// Refreshes every feed of a batch from the response that was fetched for
/// it at the time `now`. Each feed has an outcome of its own, in the order
/// of the batch: the failure of one feed leaves the others as they are.
pub fn refresh_all_channels(batch: &[FeedFetch], now: Timestamp) -> (r: Vec<
    Result<Merge, SyncError>,
>)
    ensures
        outcome_views(r@) == refresh_outcomes(batch.deep_view(), now),
{
    let mut outcomes: Vec<Result<Merge, SyncError>> = Vec::new();
    let mut i: usize = 0;
    while i < batch.len()
        invariant
            i <= batch.len(),
            outcomes.len() == i,
            forall|k: int|
                0 <= k < i ==> outcome_view(#[trigger] outcomes[k]) == refresh_outcome(
                    batch[k]@,
                    now,
                ),
        decreases batch.len() - i,
    {
        outcomes.push(refresh_one(&batch[i], now));
        i += 1;
    }
    assert(outcome_views(outcomes@) =~= refresh_outcomes(batch.deep_view(), now));
    outcomes
}

/// How many feeds of a batch were refreshed and how many failed.
#[derive(Clone, Copy, Debug, PartialEq, Eq)]
pub struct Tally {
    pub merged: usize,
    pub failed: usize,
}

/// Counts the successes and the failures among the outcomes of a batch.
pub fn tally(outcomes: &[Result<Merge, SyncError>]) -> (r: Tally)
    ensures
        r.merged == successes(outcome_views(outcomes@)),
        r.failed == failures(outcome_views(outcomes@)),
{
    let ghost all = outcome_views(outcomes@);
    let mut merged: usize = 0;
    let mut failed: usize = 0;
    let mut i: usize = 0;
    while i < outcomes.len()
        invariant
            i <= outcomes.len(),
            all == outcome_views(outcomes@),
            merged + failed == i,
            merged == successes(all.take(i as int)),
            failed == failures(all.take(i as int)),
        decreases outcomes.len() - i,
    {
        proof {
            assert(all.take(i + 1).drop_last() =~= all.take(i as int));
            assert(all.take(i + 1).last() == outcome_view(outcomes[i as int]));
        }
        if outcomes[i].is_ok() {
            merged += 1;
        } else {
            failed += 1;
        }
        i += 1;
    }
    assert(all.take(i as int) =~= all);
    Tally { merged, failed }
}

/// In a batch every feed has an outcome, the successes and the failures
/// together are the feeds, and a feed fails exactly if it has no address,
/// its fetch failed or its bytes are no document.
pub proof fn every_feed_has_its_own_outcome(batch: Seq<FeedFetchView>, now: Timestamp)
    ensures
        refresh_outcomes(batch, now).len() == batch.len(),
        successes(refresh_outcomes(batch, now)) + failures(refresh_outcomes(batch, now))
            == batch.len(),
        forall|i: int|
            0 <= i < batch.len() ==> ((#[trigger] refresh_outcomes(batch, now)[i]) is Err <==> (
            batch[i].feed.url is None || fetched_document(batch[i].response) is Err)),
    decreases batch.len(),
{
    let outcomes = refresh_outcomes(batch, now);
    if batch.len() > 0 {
        every_feed_has_its_own_outcome(batch.drop_last(), now);
        assert(outcomes.drop_last() =~= refresh_outcomes(batch.drop_last(), now));
    }
}

/// Where the fetch fails for one feed of a batch and every other feed has
/// an address and a response that is a document, that feed is the one
/// failure of the batch, and every other feed has the refresh that its own
/// document gives.
pub proof fn one_failed_fetch_fails_one_feed(batch: Seq<FeedFetchView>, now: Timestamp, failed: int)
    requires
        0 <= failed < batch.len(),
        batch[failed].response is Err,
        forall|i: int|
            0 <= i < batch.len() && i != failed ==> (#[trigger] batch[i]).feed.url is Some
                && fetched_document(batch[i].response) is Ok,
    ensures
        successes(refresh_outcomes(batch, now)) == batch.len() - 1,
        failures(refresh_outcomes(batch, now)) == 1,
        refresh_outcomes(batch, now)[failed] is Err,
        forall|i: int|
            0 <= i < batch.len() && i != failed ==> (#[trigger] refresh_outcomes(batch, now)[i])
                == Ok::<MergeView, SyncErrorView>(
                refresh_plan(
                    batch[i].feed,
                    fetched_document(batch[i].response)->Ok_0,
                    known_titles(batch[i].old_items),
                    now,
                ),
            ),
    decreases batch.len(),
{
    let outcomes = refresh_outcomes(batch, now);
    let shorter = batch.drop_last();
    assert(outcomes.drop_last() =~= refresh_outcomes(shorter, now));
    if failed == batch.len() - 1 {
        all_succeed(shorter, now);
    } else {
        one_failed_fetch_fails_one_feed(shorter, now, failed);
    }
}

/// A batch in which every feed has an address and a response that is a
/// document has no failure.
pub proof fn all_succeed(batch: Seq<FeedFetchView>, now: Timestamp)
    requires
        forall|i: int|
            0 <= i < batch.len() ==> (#[trigger] batch[i]).feed.url is Some && fetched_document(
                batch[i].response,
            ) is Ok,
    ensures
        successes(refresh_outcomes(batch, now)) == batch.len(),
        failures(refresh_outcomes(batch, now)) == 0,
    decreases batch.len(),
{
    let outcomes = refresh_outcomes(batch, now);
    if batch.len() > 0 {
        let shorter = batch.drop_last();
        assert(outcomes.drop_last() =~= refresh_outcomes(shorter, now));
        all_succeed(shorter, now);
    }
}

} // verus!
