//! The feed synchronizer: what a subscription and what a refresh of one feed
//! hand to the store.

use crate::dates::{normalized_date, parse_rss_date};
use crate::document::{parse_document, parsed_document, Document, DocumentView, EntryView};
use crate::error::{outcome_view, SyncError, SyncErrorView};
use crate::models::{Channel, ChannelView, Item, NewChannel, NewChannelView, NewItem, NewItemView};
use crate::normalize::{
    article_of, candidate, candidate_of, first_date, first_of, Candidate, CandidateView,
};
use crate::novelty::{is_new, known_titles};
use crate::text::starts_with;
use crate::timestamp::Timestamp;
use vstd::prelude::*;
use vstd::string::StringExecFns;

verus! {

/// The scheme put before an address that has none.
pub const DEFAULT_SCHEME: &'static str = "https://";

/// The other scheme under which a feed is fetched.
pub const PLAIN_SCHEME: &'static str = "http://";

/// Whether an address names the scheme under which it is fetched: it
/// begins with `http://` or with `https://`.
pub open spec fn has_scheme(url: Seq<char>) -> bool {
    PLAIN_SCHEME@.is_prefix_of(url) || DEFAULT_SCHEME@.is_prefix_of(url)
}

/// An address as it is fetched: unchanged where it names its scheme, and
/// with `https://` before it otherwise.
pub open spec fn formatted_url(url: Seq<char>) -> Seq<char> {
    if has_scheme(url) {
        url
    } else {
        DEFAULT_SCHEME@ + url
    }
}

/// Gives the address at which a feed is fetched: the address with a scheme
/// put before it where it names none.
pub fn format_url(url: &str) -> (r: String)
    ensures
        r@ == formatted_url(url@),
{
    if starts_with(url, PLAIN_SCHEME) || starts_with(url, DEFAULT_SCHEME) {
        String::from_str(url)
    } else {
        String::from_str(DEFAULT_SCHEME).concat(url)
    }
}

/// The date field that a document is dated by: its publication date, or
/// else its last build date, or else the first date of its metadata.
pub open spec fn document_date_text(document: DocumentView) -> Option<Seq<char>> {
    match document.pub_date {
        Some(date) => Some(date),
        None => match document.last_build_date {
            Some(date) => Some(date),
            None => first_date(document.dc_dates),
        },
    }
}

/// How fresh a document says it is, if it says so readably.
pub open spec fn freshness(document: DocumentView) -> Option<Timestamp> {
    normalized_date(document_date_text(document))
}

/// The row of a feed that is subscribed to at `url` at the time `now`: the
/// address and the title as given, and as first watermark the freshness of
/// its document or else `now`.
pub open spec fn new_channel(
    url: Seq<char>,
    title: Seq<char>,
    freshness: Option<Timestamp>,
    now: Timestamp,
) -> NewChannelView {
    NewChannelView {
        url,
        subscribed: true,
        pub_date: match freshness {
            Some(date) => date,
            None => now,
        },
        title,
    }
}

/// The row of a feed that is subscribed to at `url` with a document fetched
/// at the time `now`.
pub open spec fn new_channel_of(
    document: DocumentView,
    url: Seq<char>,
    now: Timestamp,
) -> NewChannelView {
    new_channel(url, document.title, freshness(document), now)
}

/// The entries of a document in normal form, in the order of the document.
pub open spec fn candidates_of(entries: Seq<EntryView>) -> Seq<CandidateView> {
    Seq::new(entries.len(), |i: int| candidate_of(entries[i]))
}

/// Every candidate as an article of the feed `feed_id`, in their order.
pub open spec fn articles_of(candidates: Seq<CandidateView>, feed_id: i32, now: Timestamp) -> Seq<
    NewItemView,
> {
    Seq::new(candidates.len(), |i: int| article_of(candidates[i], feed_id, now))
}

/// Every entry of a document as an article of the feed `feed_id`, in the
/// order of the document.
pub open spec fn all_articles(entries: Seq<EntryView>, feed_id: i32, now: Timestamp) -> Seq<
    NewItemView,
> {
    articles_of(candidates_of(entries), feed_id, now)
}

/// The candidates that are new to a feed, as articles of it, in their
/// order.
pub open spec fn new_articles_of(
    candidates: Seq<CandidateView>,
    feed_id: i32,
    watermark: Timestamp,
    titles: Set<Seq<char>>,
    now: Timestamp,
) -> Seq<NewItemView>
    decreases candidates.len(),
{
    if candidates.len() == 0 {
        Seq::empty()
    } else {
        let earlier = new_articles_of(candidates.drop_last(), feed_id, watermark, titles, now);
        if is_new(candidates.last(), watermark, titles) {
            earlier.push(article_of(candidates.last(), feed_id, now))
        } else {
            earlier
        }
    }
}

/// Whether a feed with the watermark `watermark` is up to date with a
/// document of the freshness `freshness`: the document says how fresh it
/// is, and that is no later than the watermark.
pub open spec fn is_current(watermark: Timestamp, freshness: Option<Timestamp>) -> bool {
    match freshness {
        Some(date) => !date.after(watermark),
        None => false,
    }
}

/// What a refresh hands to the store.
#[derive(Clone, Debug, PartialEq, Eq)]
pub struct Merge {
    /// The feed that was refreshed.
    pub feed_id: i32,
    /// The articles to insert, in the order of the document.
    pub new_items: Vec<NewItem>,
    /// The watermark of the feed once the articles are stored.
    pub watermark: Timestamp,
}

/// The model of `Merge` that contracts speak of.
pub struct MergeView {
    pub feed_id: i32,
    pub new_items: Seq<NewItemView>,
    pub watermark: Timestamp,
}

impl DeepView for Merge {
    type V = MergeView;

    open spec fn deep_view(&self) -> MergeView {
        MergeView {
            feed_id: self.feed_id,
            new_items: self.new_items.deep_view(),
            watermark: self.watermark,
        }
    }
}

impl View for Merge {
    type V = MergeView;

    open spec fn view(&self) -> MergeView {
        self.deep_view()
    }
}

/// The refresh of a feed, whose stored articles are titled `titles`, by a
/// document of the freshness `freshness` and with the entries
/// `candidates`. A feed that is up to date with the document is left as it
/// is. Otherwise the candidates that are new to the feed are inserted, and
/// the watermark moves to the freshness of the document where the document
/// states it.
pub open spec fn merge_plan(
    feed: ChannelView,
    freshness: Option<Timestamp>,
    candidates: Seq<CandidateView>,
    titles: Set<Seq<char>>,
    now: Timestamp,
) -> MergeView {
    if is_current(feed.pub_date, freshness) {
        MergeView { feed_id: feed.id, new_items: Seq::empty(), watermark: feed.pub_date }
    } else {
        MergeView {
            feed_id: feed.id,
            new_items: new_articles_of(candidates, feed.id, feed.pub_date, titles, now),
            watermark: match freshness {
                Some(date) => date,
                None => feed.pub_date,
            },
        }
    }
}

/// The refresh of a feed, whose stored articles are titled `titles`, by a
/// document fetched at the time `now`.
pub open spec fn refresh_plan(
    feed: ChannelView,
    document: DocumentView,
    titles: Set<Seq<char>>,
    now: Timestamp,
) -> MergeView {
    merge_plan(feed, freshness(document), candidates_of(document.entries), titles, now)
}

/// Reads how fresh a document says it is.
pub fn document_date(document: &Document) -> (r: Option<Timestamp>)
    ensures
        r == freshness(document@),
        r matches Some(t) ==> t.wf(),
{
    match &document.pub_date {
        Some(date) => parse_rss_date(Some(date.as_str())),
        None => match &document.last_build_date {
            Some(date) => parse_rss_date(Some(date.as_str())),
            None => parse_rss_date(first_of(&document.dc_dates)),
        },
    }
}

/// Brings every entry of a document into normal form.
pub fn candidates(document: &Document) -> (r: Vec<Candidate>)
    ensures
        r.deep_view() == candidates_of(document@.entries),
        forall|k: int| 0 <= k < r.len() ==> ((#[trigger] r[k]).pub_date matches Some(t) ==> t.wf()),
{
    let mut out: Vec<Candidate> = Vec::new();
    let mut i: usize = 0;
    while i < document.entries.len()
        invariant
            i <= document.entries.len(),
            out.len() == i,
            forall|k: int|
                0 <= k < i ==> (#[trigger] out[k])@ == candidate_of(document.entries[k]@),
            forall|k: int| 0 <= k < i ==> ((#[trigger] out[k]).pub_date matches Some(t) ==> t.wf()),
        decreases document.entries.len() - i,
    {
        out.push(candidate(&document.entries[i]));
        i += 1;
    }
    assert(out.deep_view() =~= candidates_of(document@.entries));
    out
}

impl<'a> NewChannel<'a> {
    /// Makes the row for a feed that is subscribed to at `url` at the time
    /// `now`, from the title and the freshness of its document.
    pub fn new(url: &'a str, title: &'a str, freshness: Option<Timestamp>, now: Timestamp) -> (r:
        NewChannel<'a>)
        ensures
            r@ == new_channel(url@, title@, freshness, now),
    {
        NewChannel {
            url,
            subscribed: true,
            pub_date: match freshness {
                Some(date) => date,
                None => now,
            },
            title,
        }
    }
}

/// Makes the row for a feed that is subscribed to at `url`, from the
/// document fetched there at the time `now`. The store inserts the row
/// unless it has a feed of that address already.
pub fn add_feed<'a>(channel: &'a Document, url: &'a str, now: Timestamp) -> (r: NewChannel<'a>)
    ensures
        r@ == new_channel_of(channel@, url@, now),
        now.wf() ==> r.pub_date.wf(),
{
    NewChannel::new(url, channel.title.as_str(), document_date(channel), now)
}

/// Makes every candidate an article of the feed `feed_id`.
pub fn articles(candidates: Vec<Candidate>, feed_id: i32, now: Timestamp) -> (r: Vec<NewItem>)
    ensures
        r.deep_view() == articles_of(candidates.deep_view(), feed_id, now),
        (now.wf() && forall|k: int|
            0 <= k < candidates.len() ==> ((#[trigger] candidates[k]).pub_date matches Some(t)
                ==> t.wf())) ==> forall|k: int|
            0 <= k < r.len() ==> (#[trigger] r[k]).pub_date.wf(),
{
    let ghost all = candidates.deep_view();
    let ghost dated = now.wf() && forall|k: int|
        0 <= k < candidates.len() ==> ((#[trigger] candidates[k]).pub_date matches Some(t)
            ==> t.wf());
    let mut out: Vec<NewItem> = Vec::new();
    for one in iter: candidates
        invariant
            all == candidates.deep_view(),
            out.len() == iter.index(),
            forall|k: int|
                0 <= k < iter.index() ==> (#[trigger] out[k])@ == article_of(all[k], feed_id, now),
            dated ==> now.wf() && forall|k: int|
                0 <= k < candidates.len() ==> ((#[trigger] candidates[k]).pub_date matches Some(t)
                    ==> t.wf()),
            dated ==> forall|k: int| 0 <= k < out.len() ==> (#[trigger] out[k]).pub_date.wf(),
    {
        out.push(one.into_article(feed_id, now));
    }
    assert(out.deep_view() =~= articles_of(all, feed_id, now));
    out
}

/// Normalizes every entry of a document into an article of the feed
/// `feed_id`: what a subscription inserts. The store passes over those it
/// has already.
pub fn new_items(channel: &Document, feed_id: i32, now: Timestamp) -> (r: Vec<NewItem>)
    ensures
        r.deep_view() == all_articles(channel@.entries, feed_id, now),
        now.wf() ==> forall|k: int| 0 <= k < r.len() ==> (#[trigger] r[k]).pub_date.wf(),
{
    articles(candidates(channel), feed_id, now)
}

/// Picks the candidates that are new to the feed `feed_id`, and makes them
/// articles of it: what a refresh inserts. `newest_article_date` is the
/// watermark of the feed and `old_items` are its stored articles.
pub fn new_articles(
    feed_id: i32,
    candidates: Vec<Candidate>,
    newest_article_date: Timestamp,
    old_items: &[Item],
    now: Timestamp,
) -> (r: Vec<NewItem>)
    ensures
        r.deep_view() == new_articles_of(
            candidates.deep_view(),
            feed_id,
            newest_article_date,
            known_titles(old_items.deep_view()),
            now,
        ),
        (now.wf() && forall|k: int|
            0 <= k < candidates.len() ==> ((#[trigger] candidates[k]).pub_date matches Some(t)
                ==> t.wf())) ==> forall|k: int|
            0 <= k < r.len() ==> (#[trigger] r[k]).pub_date.wf(),
{
    let ghost all = candidates.deep_view();
    let ghost titles = known_titles(old_items.deep_view());
    let ghost dated = now.wf() && forall|k: int|
        0 <= k < candidates.len() ==> ((#[trigger] candidates[k]).pub_date matches Some(t)
            ==> t.wf());
    let mut out: Vec<NewItem> = Vec::new();
    for one in iter: candidates
        invariant
            all == candidates.deep_view(),
            titles == known_titles(old_items.deep_view()),
            out.deep_view() == new_articles_of(
                all.take(iter.index()),
                feed_id,
                newest_article_date,
                titles,
                now,
            ),
            dated ==> now.wf() && forall|k: int|
                0 <= k < candidates.len() ==> ((#[trigger] candidates[k]).pub_date matches Some(t)
                    ==> t.wf()),
            dated ==> forall|k: int| 0 <= k < out.len() ==> (#[trigger] out[k]).pub_date.wf(),
    {
        let ghost before = out.deep_view();
        proof {
            assert(all.take(iter.index() + 1).drop_last() =~= all.take(iter.index()));
            assert(all.take(iter.index() + 1).last() == one@);
        }
        if one.is_new(newest_article_date, old_items) {
            let article = one.into_article(feed_id, now);
            out.push(article);
            assert(out.deep_view() =~= before.push(article@));
        }
    }
    assert(all.take(all.len() as int) =~= all);
    out
}

/// Tests whether a feed with the watermark `watermark` is up to date with
/// a document of the freshness `freshness`.
pub fn up_to_date(watermark: &Timestamp, freshness: &Option<Timestamp>) -> (r: bool)
    ensures
        r == is_current(*watermark, *freshness),
{
    match freshness {
        Some(date) => !date.is_after(watermark),
        None => false,
    }
}

/// The refresh that leaves a feed as it is.
pub fn unchanged(feed: &Channel) -> (r: Merge)
    ensures
        r@ == (MergeView { feed_id: feed.id, new_items: Seq::empty(), watermark: feed.pub_date }),
        r.new_items.len() == 0,
{
    let nothing: Vec<NewItem> = Vec::new();
    assert(nothing.deep_view() =~= Seq::<NewItemView>::empty());
    Merge { feed_id: feed.id, new_items: nothing, watermark: feed.pub_date }
}

/// Plans the refresh of a feed from what was read out of the document
/// fetched for it at the time `now`: its freshness and its entries in
/// normal form. `old_items` are the stored articles of the feed.
pub fn plan_merge(
    feed: &Channel,
    freshness: Option<Timestamp>,
    candidates: Vec<Candidate>,
    old_items: &[Item],
    now: Timestamp,
) -> (r: Merge)
    ensures
        r@ == merge_plan(
            feed@,
            freshness,
            candidates.deep_view(),
            known_titles(old_items.deep_view()),
            now,
        ),
        (now.wf() && forall|k: int|
            0 <= k < candidates.len() ==> ((#[trigger] candidates[k]).pub_date matches Some(t)
                ==> t.wf())) ==> forall|k: int|
            0 <= k < r.new_items.len() ==> (#[trigger] r.new_items[k]).pub_date.wf(),
        feed.pub_date.wf() && (freshness matches Some(t) ==> t.wf()) ==> r.watermark.wf(),
{
    if up_to_date(&feed.pub_date, &freshness) {
        return unchanged(feed);
    }
    Merge {
        feed_id: feed.id,
        new_items: new_articles(feed.id, candidates, feed.pub_date, old_items, now),
        watermark: match freshness {
            Some(date) => date,
            None => feed.pub_date,
        },
    }
}

/// Plans the refresh of a feed from the document fetched for it at the
/// time `now`. `old_items` are the stored articles of the feed. The store
/// is to insert the articles of the plan, passing over those it has
/// already, and then to set the watermark of the feed to that of the plan.
/// The entries of a document with which the feed is up to date are not
/// gone through.
pub fn refresh_feed(feed: &Channel, new_feed: &Document, old_items: &[Item], now: Timestamp) -> (r:
    Merge)
    ensures
        r@ == refresh_plan(feed@, new_feed@, known_titles(old_items.deep_view()), now),
        now.wf() ==> forall|k: int|
            0 <= k < r.new_items.len() ==> (#[trigger] r.new_items[k]).pub_date.wf(),
        feed.pub_date.wf() ==> r.watermark.wf(),
{
    let freshness = document_date(new_feed);
    if up_to_date(&feed.pub_date, &freshness) {
        return unchanged(feed);
    }
    plan_merge(feed, freshness, candidates(new_feed), old_items, now)
}

/// Whether `article` is what one of the candidates that are new becomes.
pub open spec fn is_article_of_new_candidate(
    article: NewItemView,
    candidates: Seq<CandidateView>,
    feed_id: i32,
    watermark: Timestamp,
    titles: Set<Seq<char>>,
    now: Timestamp,
) -> bool {
    exists|i: int|
        0 <= i < candidates.len() && is_new(#[trigger] candidates[i], watermark, titles) && article
            == article_of(candidates[i], feed_id, now)
}

/// What a refresh inserts is made of the candidates that are new, and
/// holds every one of them.
pub proof fn new_articles_are_the_new_candidates(
    candidates: Seq<CandidateView>,
    feed_id: i32,
    watermark: Timestamp,
    titles: Set<Seq<char>>,
    now: Timestamp,
)
    ensures
        forall|article: NewItemView|
            #![trigger new_articles_of(candidates, feed_id, watermark, titles, now).contains(article)]
            #![trigger is_article_of_new_candidate(article, candidates, feed_id, watermark, titles, now)]
            new_articles_of(candidates, feed_id, watermark, titles, now).contains(article)
                <==> is_article_of_new_candidate(
                article,
                candidates,
                feed_id,
                watermark,
                titles,
                now,
            ),
    decreases candidates.len(),
{
    let articles = new_articles_of(candidates, feed_id, watermark, titles, now);
    if candidates.len() > 0 {
        let shorter = candidates.drop_last();
        let earlier = new_articles_of(shorter, feed_id, watermark, titles, now);
        new_articles_are_the_new_candidates(shorter, feed_id, watermark, titles, now);
        assert forall|article: NewItemView|
            articles.contains(article) implies is_article_of_new_candidate(
            article,
            candidates,
            feed_id,
            watermark,
            titles,
            now,
        ) by {
            let j = choose|j: int| 0 <= j < articles.len() && articles[j] == article;
            if j < earlier.len() {
                assert(earlier[j] == article);
                assert(earlier.contains(article));
                assert(is_article_of_new_candidate(
                    article,
                    shorter,
                    feed_id,
                    watermark,
                    titles,
                    now,
                ));
                let i = choose|i: int|
                    0 <= i < shorter.len() && is_new(#[trigger] shorter[i], watermark, titles)
                        && article == article_of(shorter[i], feed_id, now);
                assert(candidates[i] == shorter[i]);
            } else {
                assert(is_new(candidates[candidates.len() - 1], watermark, titles));
            }
        }
        assert forall|article: NewItemView|
            is_article_of_new_candidate(
                article,
                candidates,
                feed_id,
                watermark,
                titles,
                now,
            ) implies articles.contains(article) by {
            let i = choose|i: int|
                0 <= i < candidates.len() && is_new(#[trigger] candidates[i], watermark, titles)
                    && article == article_of(candidates[i], feed_id, now);
            if i < shorter.len() {
                assert(shorter[i] == candidates[i]);
                assert(is_article_of_new_candidate(
                    article,
                    shorter,
                    feed_id,
                    watermark,
                    titles,
                    now,
                ));
                let j = choose|j: int| 0 <= j < earlier.len() && earlier[j] == article;
                assert(articles[j] == article);
            } else {
                assert(articles[articles.len() - 1] == article);
            }
        }
    }
}

/// What a refresh inserts are the candidates that are new, none left out
/// and none twice, in the order in which the document has them.
pub proof fn new_articles_keep_the_order_of_the_document(
    candidates: Seq<CandidateView>,
    feed_id: i32,
    watermark: Timestamp,
    titles: Set<Seq<char>>,
    now: Timestamp,
)
    ensures
        new_articles_of(candidates, feed_id, watermark, titles, now) == articles_of(
            candidates.filter(|c: CandidateView| is_new(c, watermark, titles)),
            feed_id,
            now,
        ),
    decreases candidates.len(),
{
    reveal(Seq::filter);
    let kept = |c: CandidateView| is_new(c, watermark, titles);
    if candidates.len() > 0 {
        new_articles_keep_the_order_of_the_document(
            candidates.drop_last(),
            feed_id,
            watermark,
            titles,
            now,
        );
    }
    assert(new_articles_of(candidates, feed_id, watermark, titles, now) =~= articles_of(
        candidates.filter(kept),
        feed_id,
        now,
    ));
}

/// Without a candidate that is new there is nothing to insert.
pub proof fn no_new_candidate_gives_no_article(
    candidates: Seq<CandidateView>,
    feed_id: i32,
    watermark: Timestamp,
    titles: Set<Seq<char>>,
    now: Timestamp,
)
    requires
        forall|i: int|
            0 <= i < candidates.len() ==> !is_new(#[trigger] candidates[i], watermark, titles),
    ensures
        new_articles_of(candidates, feed_id, watermark, titles, now) == Seq::<NewItemView>::empty(),
    decreases candidates.len(),
{
    if candidates.len() > 0 {
        no_new_candidate_gives_no_article(candidates.drop_last(), feed_id, watermark, titles, now);
    }
}

/// Where one candidate is new and no other is, that candidate alone is
/// inserted.
pub proof fn one_new_candidate_gives_one_article(
    candidates: Seq<CandidateView>,
    feed_id: i32,
    watermark: Timestamp,
    titles: Set<Seq<char>>,
    now: Timestamp,
    newer: int,
)
    requires
        0 <= newer < candidates.len(),
        forall|i: int|
            0 <= i < candidates.len() ==> (is_new(#[trigger] candidates[i], watermark, titles)
                <==> i == newer),
    ensures
        new_articles_of(candidates, feed_id, watermark, titles, now) == seq![
            article_of(candidates[newer], feed_id, now),
        ],
    decreases candidates.len(),
{
    let earlier = candidates.drop_last();
    if newer == candidates.len() - 1 {
        no_new_candidate_gives_no_article(earlier, feed_id, watermark, titles, now);
        assert(Seq::<NewItemView>::empty().push(article_of(candidates[newer], feed_id, now))
            =~= seq![article_of(candidates[newer], feed_id, now)]);
    } else {
        assert(earlier[newer] == candidates[newer]);
        one_new_candidate_gives_one_article(earlier, feed_id, watermark, titles, now, newer);
    }
}

/// A refresh by a document of which one entry is dated later than the
/// watermark inserts that entry and nothing else. This is so where the feed
/// is not up to date with the document, and where every entry without a
/// date has the title of a stored article.
pub proof fn single_newer_entry_is_the_only_insert(
    feed: ChannelView,
    freshness: Option<Timestamp>,
    candidates: Seq<CandidateView>,
    titles: Set<Seq<char>>,
    now: Timestamp,
    newer: int,
)
    requires
        0 <= newer < candidates.len(),
        forall|i: int|
            0 <= i < candidates.len() ==> (((#[trigger] candidates[i]).pub_date matches Some(date)
                && date.after(feed.pub_date)) <==> i == newer),
        !is_current(feed.pub_date, freshness),
        forall|i: int|
            0 <= i < candidates.len() && (#[trigger] candidates[i]).pub_date is None ==> (
            candidates[i].title matches Some(title) && titles.contains(title)),
    ensures
        merge_plan(feed, freshness, candidates, titles, now).new_items == seq![
            article_of(candidates[newer], feed.id, now),
        ],
{
    assert forall|i: int| 0 <= i < candidates.len() implies (is_new(
        #[trigger] candidates[i],
        feed.pub_date,
        titles,
    ) <==> i == newer) by {
        if candidates[i].pub_date is None {
            assert(i != newer);
        }
    }
    one_new_candidate_gives_one_article(candidates, feed.id, feed.pub_date, titles, now, newer);
}

/// A refresh never moves the watermark of a feed back.
pub proof fn watermark_never_moves_back(
    feed: ChannelView,
    freshness: Option<Timestamp>,
    candidates: Seq<CandidateView>,
    titles: Set<Seq<char>>,
    now: Timestamp,
)
    ensures
        !feed.pub_date.after(merge_plan(feed, freshness, candidates, titles, now).watermark),
{
}

/// A document that was fetched in order to subscribe to the feed at `url`.
#[derive(Clone, Debug, PartialEq, Eq)]
pub struct Subscription {
    /// The address as the subscriber gave it.
    pub url: String,
    pub document: Document,
    /// When the document was fetched.
    pub fetched_at: Timestamp,
}

/// The model of `Subscription` that contracts speak of.
pub struct SubscriptionView {
    pub url: Seq<char>,
    pub document: DocumentView,
    pub fetched_at: Timestamp,
}

impl DeepView for Subscription {
    type V = SubscriptionView;

    open spec fn deep_view(&self) -> SubscriptionView {
        SubscriptionView {
            url: self.url@,
            document: self.document@,
            fetched_at: self.fetched_at,
        }
    }
}

impl View for Subscription {
    type V = SubscriptionView;

    open spec fn view(&self) -> SubscriptionView {
        self.deep_view()
    }
}

/// What the attempt to fetch a document gave, as a model: its bytes, or the
/// account of the transport of why there are none.
pub open spec fn response_view(response: Result<Vec<u8>, String>) -> Result<Seq<u8>, Seq<char>> {
    match response {
        Ok(bytes) => Ok(bytes@),
        Err(account) => Err(account@),
    }
}

/// The document of a response. A fetch that failed gives a transport error
/// with the account of the transport, and bytes that are no feed document
/// give a format error.
pub open spec fn fetched_document(response: Result<Seq<u8>, Seq<char>>) -> Result<
    DocumentView,
    SyncErrorView,
> {
    match response {
        Ok(bytes) => parsed_document(bytes),
        Err(account) => Err(SyncErrorView::Transport(account)),
    }
}

/// What taking up a response in order to subscribe gives: the document of
/// the response with the address and the time of the fetch.
pub open spec fn subscription_of(
    url: Seq<char>,
    response: Result<Seq<u8>, Seq<char>>,
    now: Timestamp,
) -> Result<SubscriptionView, SyncErrorView> {
    match fetched_document(response) {
        Ok(document) => Ok(SubscriptionView { url, document, fetched_at: now }),
        Err(e) => Err(e),
    }
}

/// Reads the document of a response.
pub fn read_response(response: &Result<Vec<u8>, String>) -> (r: Result<Document, SyncError>)
    ensures
        outcome_view(r) == fetched_document(response_view(*response)),
{
    match response {
        Ok(bytes) => parse_document(bytes.as_slice()),
        Err(account) => Err(SyncError::Transport(account.clone())),
    }
}

/// Takes up the response to fetching the feed at `url` at the time `now`
/// in order to subscribe to it. On success the caller stores the row that
/// `feed` gives, and then, under the identity that the store gave the
/// feed, the articles that `items` gives.
pub fn subscribe_to_feed(url: &str, response: Result<Vec<u8>, String>, now: Timestamp) -> (r:
    Result<Subscription, SyncError>)
    ensures
        outcome_view(r) == subscription_of(url@, response_view(response), now),
{
    match read_response(&response) {
        Ok(document) => Ok(Subscription { url: String::from_str(url), document, fetched_at: now }),
        Err(e) => Err(e),
    }
}

impl Subscription {
    /// The row of the feed.
    pub fn feed(&self) -> (r: NewChannel<'_>)
        ensures
            r@ == new_channel_of(self.document@, self.url@, self.fetched_at),
            self.fetched_at.wf() ==> r.pub_date.wf(),
    {
        add_feed(&self.document, self.url.as_str(), self.fetched_at)
    }

    /// The articles of the feed, once the store has given it the identity
    /// `feed_id`.
    pub fn items(&self, feed_id: i32) -> (r: Vec<NewItem>)
        ensures
            r.deep_view() == all_articles(self.document@.entries, feed_id, self.fetched_at),
            self.fetched_at.wf() ==> forall|k: int|
                0 <= k < r.len() ==> (#[trigger] r[k]).pub_date.wf(),
    {
        new_items(&self.document, feed_id, self.fetched_at)
    }
}

} // verus!
