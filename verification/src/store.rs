//! What the engine takes for granted of the store, as a model: a table of
//! feeds and a table of articles, into which rows are inserted unless a row
//! of the same key is there already. Over this model a subscription and a
//! refresh are transitions of the store, and repeating one adds nothing.

use crate::document::{DocumentView, EntryView};
use crate::models::{ChannelView, ItemView, NewChannelView, NewItemView};
use crate::normalize::{article_of, candidate_of, entry_timestamp, normalized};
use crate::novelty::{is_new, is_new_entry, known_titles};
use crate::sync::{
    all_articles, candidates_of, freshness, is_article_of_new_candidate, is_current,
    new_articles_are_the_new_candidates, new_channel_of, refresh_plan, SubscriptionView,
};
use crate::timestamp::Timestamp;
use vstd::prelude::*;

verus! {

/// The rows of a store. The identities of articles are left out: the
/// engine never reads them, and `rows_of` takes them as they come.
pub struct Store {
    pub feeds: Seq<ChannelView>,
    pub articles: Seq<NewItemView>,
}

/// The feed as the store holds it once it has given the row the identity
/// `feed_id`.
pub open spec fn stored_channel_of(row: NewChannelView, feed_id: i32) -> ChannelView {
    ChannelView {
        id: feed_id,
        url: Some(row.url),
        subscribed: Some(row.subscribed),
        pub_date: row.pub_date,
        title: Some(row.title),
    }
}

/// Whether two articles have one key: the same feed, address, title and
/// publish timestamp.
pub open spec fn same_article(a: NewItemView, b: NewItemView) -> bool {
    a.feed_id == b.feed_id && a.url == b.url && a.title == b.title && a.pub_date == b.pub_date
}

/// The number of feeds with the address `url`.
pub open spec fn feeds_at(feeds: Seq<ChannelView>, url: Seq<char>) -> nat
    decreases feeds.len(),
{
    if feeds.len() == 0 {
        0
    } else {
        feeds_at(feeds.drop_last(), url) + if feeds.last().url == Some(url) {
            1nat
        } else {
            0nat
        }
    }
}

/// Whether one of the feeds has the address `url`.
pub open spec fn has_feed_at(feeds: Seq<ChannelView>, url: Seq<char>) -> bool {
    exists|i: int| 0 <= i < feeds.len() && (#[trigger] feeds[i]).url == Some(url)
}

impl Store {
    /// Whether a feed has the address `url`.
    pub open spec fn has_feed(self, url: Seq<char>) -> bool {
        has_feed_at(self.feeds, url)
    }

    /// The row of a feed with the address `url`, where there is one.
    pub open spec fn position_of(self, url: Seq<char>) -> int {
        choose|i: int| 0 <= i < self.feeds.len() && (#[trigger] self.feeds[i]).url == Some(url)
    }

    /// A feed with the address `url`, where there is one.
    pub open spec fn feed_at(self, url: Seq<char>) -> ChannelView {
        self.feeds[self.position_of(url)]
    }

    /// Inserts the row of a feed under the identity `id`, unless a feed has
    /// its address already.
    pub open spec fn insert_feed_or_ignore(self, row: NewChannelView, id: i32) -> Store {
        if self.has_feed(row.url) {
            self
        } else {
            Store { feeds: self.feeds.push(stored_channel_of(row, id)), articles: self.articles }
        }
    }

    /// Whether an article with the key of `article` is stored.
    pub open spec fn has_article(self, article: NewItemView) -> bool {
        exists|i: int|
            0 <= i < self.articles.len() && same_article(#[trigger] self.articles[i], article)
    }

    /// Inserts an article, unless one with its key is stored already.
    pub open spec fn insert_article_or_ignore(self, article: NewItemView) -> Store {
        if self.has_article(article) {
            self
        } else {
            Store { feeds: self.feeds, articles: self.articles.push(article) }
        }
    }

    /// Inserts articles one after the other, each unless one with its key
    /// is stored already.
    pub open spec fn insert_articles_or_ignore(self, articles: Seq<NewItemView>) -> Store
        decreases articles.len(),
    {
        if articles.len() == 0 {
            self
        } else {
            self.insert_articles_or_ignore(articles.drop_last()).insert_article_or_ignore(
                articles.last(),
            )
        }
    }

    /// The stored articles of the feed `feed_id` as the rows that the store
    /// hands out for them: what a refresh of the feed is given as its
    /// stored articles.
    pub open spec fn rows_of(self, feed_id: i32, identity: spec_fn(int) -> i32) -> Seq<ItemView> {
        rows_among(self.articles, feed_id, identity)
    }

    /// The titles of the stored articles of the feed `feed_id`.
    pub open spec fn titles_of(self, feed_id: i32) -> Set<Seq<char>> {
        titles_among(self.articles, feed_id)
    }

    /// Sets the watermark of the feed in the row `position`.
    pub open spec fn with_watermark(self, position: int, watermark: Timestamp) -> Store {
        Store {
            feeds: self.feeds.update(
                position,
                ChannelView { pub_date: watermark, ..self.feeds[position] },
            ),
            articles: self.articles,
        }
    }

    /// The store after a subscription: the row of the feed inserted under
    /// the identity `id` unless the address is known, and then every entry
    /// of the document inserted as an article of the feed of that address.
    pub open spec fn subscribed(self, subscription: SubscriptionView, id: i32) -> Store {
        let with_feed = self.insert_feed_or_ignore(
            new_channel_of(subscription.document, subscription.url, subscription.fetched_at),
            id,
        );
        with_feed.insert_articles_or_ignore(
            all_articles(
                subscription.document.entries,
                with_feed.feed_at(subscription.url).id,
                subscription.fetched_at,
            ),
        )
    }

    /// The store after the feed in the row `position` was refreshed by a
    /// document fetched at the time `now`: the articles of the refresh
    /// inserted and the watermark of the feed set.
    pub open spec fn refreshed(
        self,
        position: int,
        document: DocumentView,
        now: Timestamp,
    ) -> Store {
        let feed = self.feeds[position];
        let plan = refresh_plan(feed, document, self.titles_of(feed.id), now);
        self.insert_articles_or_ignore(plan.new_items).with_watermark(position, plan.watermark)
    }
}

/// An article as the row that the store hands out for it, under the
/// identity `id`.
pub open spec fn stored_item_of(article: NewItemView, id: i32) -> ItemView {
    ItemView {
        id,
        url: article.url,
        feed_id: Some(article.feed_id),
        read: Some(article.read),
        pub_date: article.pub_date,
        content: Some(article.content),
        title: Some(article.title),
    }
}

/// The articles of the feed `feed_id` among `articles` as the rows that the
/// store hands out, in their order. `identity` gives the identity of the
/// article at each place of the table, whatever the store chose.
pub open spec fn rows_among(
    articles: Seq<NewItemView>,
    feed_id: i32,
    identity: spec_fn(int) -> i32,
) -> Seq<ItemView>
    decreases articles.len(),
{
    if articles.len() == 0 {
        Seq::empty()
    } else {
        let earlier = rows_among(articles.drop_last(), feed_id, identity);
        if articles.last().feed_id == feed_id {
            earlier.push(stored_item_of(articles.last(), identity(articles.len() - 1)))
        } else {
            earlier
        }
    }
}

/// The titles of the articles of the feed `feed_id` among `articles`.
pub open spec fn titles_among(articles: Seq<NewItemView>, feed_id: i32) -> Set<Seq<char>> {
    Set::new(
        |title: Seq<char>|
            exists|i: int|
                0 <= i < articles.len() && (#[trigger] articles[i]).feed_id == feed_id
                    && articles[i].title == title,
    )
}

/// The rows that the store hands out for a feed have the titles of the
/// stored articles of the feed, and no other.
pub proof fn rows_have_the_stored_titles(
    articles: Seq<NewItemView>,
    feed_id: i32,
    identity: spec_fn(int) -> i32,
)
    ensures
        known_titles(rows_among(articles, feed_id, identity)) == titles_among(articles, feed_id),
    decreases articles.len(),
{
    let rows = rows_among(articles, feed_id, identity);
    if articles.len() > 0 {
        let shorter = articles.drop_last();
        let earlier = rows_among(shorter, feed_id, identity);
        let last = articles.last();
        rows_have_the_stored_titles(shorter, feed_id, identity);
        assert forall|title: Seq<char>| known_titles(rows).contains(title) implies titles_among(
            articles,
            feed_id,
        ).contains(title) by {
            let j = choose|j: int| 0 <= j < rows.len() && (#[trigger] rows[j]).title == Some(title);
            if j < earlier.len() {
                assert(earlier[j].title == Some(title));
                assert(known_titles(earlier).contains(title));
                assert(titles_among(shorter, feed_id).contains(title));
                let i = choose|i: int|
                    0 <= i < shorter.len() && (#[trigger] shorter[i]).feed_id == feed_id
                        && shorter[i].title == title;
                assert(articles[i] == shorter[i]);
            } else {
                assert(articles[articles.len() - 1].feed_id == feed_id && last.title == title);
            }
        }
        assert forall|title: Seq<char>|
            titles_among(articles, feed_id).contains(title) implies known_titles(rows).contains(
            title,
        ) by {
            let i = choose|i: int|
                0 <= i < articles.len() && (#[trigger] articles[i]).feed_id == feed_id
                    && articles[i].title == title;
            if i < shorter.len() {
                assert(shorter[i] == articles[i]);
                assert(titles_among(shorter, feed_id).contains(title));
                assert(known_titles(earlier).contains(title));
                let j = choose|j: int|
                    0 <= j < earlier.len() && (#[trigger] earlier[j]).title == Some(title);
                assert(rows[j] == earlier[j]);
            } else {
                assert(rows[rows.len() - 1].title == Some(title));
            }
        }
    }
    assert(known_titles(rows) =~= titles_among(articles, feed_id));
}

/// A refresh that is planned from the rows that the store hands out for a
/// feed is the refresh that the transition of the store makes: the one
/// goes by the titles of those rows, the other by the titles of the stored
/// articles of the feed, and they are the same titles.
pub proof fn refresh_goes_by_the_stored_rows(
    store: Store,
    position: int,
    document: DocumentView,
    now: Timestamp,
    identity: spec_fn(int) -> i32,
)
    requires
        0 <= position < store.feeds.len(),
    ensures
        known_titles(store.rows_of(store.feeds[position].id, identity)) == store.titles_of(
            store.feeds[position].id,
        ),
        store.refreshed(position, document, now) == store.insert_articles_or_ignore(
            refresh_plan(
                store.feeds[position],
                document,
                known_titles(store.rows_of(store.feeds[position].id, identity)),
                now,
            ).new_items,
        ).with_watermark(
            position,
            refresh_plan(
                store.feeds[position],
                document,
                known_titles(store.rows_of(store.feeds[position].id, identity)),
                now,
            ).watermark,
        ),
{
    rows_have_the_stored_titles(store.articles, store.feeds[position].id, identity);
}

/// Inserting articles leaves the feeds and the stored articles as they are,
/// and afterwards each of the articles is stored.
pub proof fn inserted_articles_are_stored(store: Store, articles: Seq<NewItemView>)
    ensures
        store.insert_articles_or_ignore(articles).feeds == store.feeds,
        store.articles.is_prefix_of(store.insert_articles_or_ignore(articles).articles),
        forall|a: NewItemView|
            store.has_article(a) ==> store.insert_articles_or_ignore(articles).has_article(a),
        forall|i: int|
            0 <= i < articles.len() ==> store.insert_articles_or_ignore(articles).has_article(
                #[trigger] articles[i],
            ),
    decreases articles.len(),
{
    let after = store.insert_articles_or_ignore(articles);
    if articles.len() > 0 {
        let before = store.insert_articles_or_ignore(articles.drop_last());
        inserted_articles_are_stored(store, articles.drop_last());
        assert(before.articles.is_prefix_of(after.articles));
        assert forall|a: NewItemView| before.has_article(a) implies after.has_article(a) by {
            let i = choose|i: int|
                0 <= i < before.articles.len() && same_article(#[trigger] before.articles[i], a);
            assert(after.articles[i] == before.articles[i]);
        }
        assert(after.has_article(articles.last())) by {
            if !before.has_article(articles.last()) {
                assert(same_article(after.articles[after.articles.len() - 1], articles.last()));
            }
        }
        assert forall|i: int| 0 <= i < articles.len() implies after.has_article(
            #[trigger] articles[i],
        ) by {
            if i < articles.len() - 1 {
                assert(articles.drop_last()[i] == articles[i]);
            }
        }
    }
}

/// Articles with the keys of stored articles are not stored a second time.
pub proof fn stored_articles_are_not_duplicated(store: Store, articles: Seq<NewItemView>)
    requires
        forall|i: int| 0 <= i < articles.len() ==> store.has_article(#[trigger] articles[i]),
    ensures
        store.insert_articles_or_ignore(articles) == store,
    decreases articles.len(),
{
    if articles.len() > 0 {
        assert forall|i: int| 0 <= i < articles.drop_last().len() implies store.has_article(
            #[trigger] articles.drop_last()[i],
        ) by {
            assert(articles.drop_last()[i] == articles[i]);
        }
        stored_articles_are_not_duplicated(store, articles.drop_last());
    }
}

/// Feeds none of which has an address count no feed at it.
pub proof fn unknown_address_counts_no_feed(feeds: Seq<ChannelView>, url: Seq<char>)
    requires
        !has_feed_at(feeds, url),
    ensures
        feeds_at(feeds, url) == 0,
    decreases feeds.len(),
{
    if feeds.len() > 0 {
        let shorter = feeds.drop_last();
        assert(feeds[feeds.len() - 1].url != Some(url));
        assert forall|i: int| 0 <= i < shorter.len() implies (#[trigger] shorter[i]).url != Some(
            url,
        ) by {
            assert(feeds[i] == shorter[i]);
        }
        unknown_address_counts_no_feed(shorter, url);
    }
}

/// Feeds one of which has an address count at least one feed at it.
pub proof fn known_address_counts_a_feed(feeds: Seq<ChannelView>, url: Seq<char>)
    requires
        has_feed_at(feeds, url),
    ensures
        feeds_at(feeds, url) >= 1,
    decreases feeds.len(),
{
    let i = choose|i: int| 0 <= i < feeds.len() && (#[trigger] feeds[i]).url == Some(url);
    if i < feeds.len() - 1 {
        assert(feeds.drop_last()[i].url == Some(url));
        known_address_counts_a_feed(feeds.drop_last(), url);
    }
}

/// Once the row of a feed was inserted or passed over, a feed has its
/// address; and where none had it before, exactly one has it now.
pub proof fn inserted_feed_is_known(store: Store, row: NewChannelView, id: i32)
    ensures
        store.insert_feed_or_ignore(row, id).has_feed(row.url),
        store.insert_feed_or_ignore(row, id).articles == store.articles,
        feeds_at(store.feeds, row.url) <= 1 ==> feeds_at(
            store.insert_feed_or_ignore(row, id).feeds,
            row.url,
        ) == 1,
{
    let after = store.insert_feed_or_ignore(row, id);
    if store.has_feed(row.url) {
        known_address_counts_a_feed(store.feeds, row.url);
    } else {
        assert(after.feeds[after.feeds.len() - 1].url == Some(row.url));
        assert(after.feeds.drop_last() =~= store.feeds);
        unknown_address_counts_no_feed(store.feeds, row.url);
    }
}

/// Subscribing to an address a second time leaves the feeds as they are,
/// whatever document the second fetch gave; and where the store had at most
/// one feed of the address before, it has exactly one after.
pub proof fn resubscribing_adds_no_feed(
    store: Store,
    first: SubscriptionView,
    first_id: i32,
    second: SubscriptionView,
    second_id: i32,
)
    requires
        first.url == second.url,
    ensures
        store.subscribed(first, first_id).subscribed(second, second_id).feeds == store.subscribed(
            first,
            first_id,
        ).feeds,
        feeds_at(store.feeds, first.url) <= 1 ==> feeds_at(
            store.subscribed(first, first_id).subscribed(second, second_id).feeds,
            first.url,
        ) == 1,
{
    let url = first.url;
    let with_feed = store.insert_feed_or_ignore(
        new_channel_of(first.document, url, first.fetched_at),
        first_id,
    );
    let once = store.subscribed(first, first_id);
    inserted_feed_is_known(store, new_channel_of(first.document, url, first.fetched_at), first_id);
    inserted_articles_are_stored(
        with_feed,
        all_articles(first.document.entries, with_feed.feed_at(url).id, first.fetched_at),
    );
    let again = once.insert_feed_or_ignore(
        new_channel_of(second.document, url, second.fetched_at),
        second_id,
    );
    assert(again == once);
    inserted_articles_are_stored(
        again,
        all_articles(second.document.entries, again.feed_at(url).id, second.fetched_at),
    );
}

/// Subscribing a second time with the document and the time of the first
/// leaves the store as it is.
pub proof fn resubscribing_by_same_document_changes_nothing(
    store: Store,
    subscription: SubscriptionView,
    first_id: i32,
    second_id: i32,
)
    ensures
        store.subscribed(subscription, first_id).subscribed(subscription, second_id)
            == store.subscribed(subscription, first_id),
{
    let url = subscription.url;
    let row = new_channel_of(subscription.document, url, subscription.fetched_at);
    let with_feed = store.insert_feed_or_ignore(row, first_id);
    let articles = all_articles(
        subscription.document.entries,
        with_feed.feed_at(url).id,
        subscription.fetched_at,
    );
    let once = store.subscribed(subscription, first_id);
    inserted_feed_is_known(store, row, first_id);
    inserted_articles_are_stored(with_feed, articles);
    assert(once.insert_feed_or_ignore(row, second_id) == once);
    stored_articles_are_not_duplicated(once, articles);
}

/// A subscription keeps the articles that were stored, and stores every
/// entry of the document as an article of the feed.
pub proof fn subscribing_stores_every_entry(store: Store, subscription: SubscriptionView, id: i32)
    ensures
        store.articles.is_prefix_of(store.subscribed(subscription, id).articles),
        forall|i: int|
            0 <= i < subscription.document.entries.len() ==> store.subscribed(
                subscription,
                id,
            ).has_article(
                normalized(
                    #[trigger] subscription.document.entries[i],
                    store.subscribed(subscription, id).feed_at(subscription.url).id,
                    subscription.fetched_at,
                ),
            ),
{
    let url = subscription.url;
    let row = new_channel_of(subscription.document, url, subscription.fetched_at);
    let with_feed = store.insert_feed_or_ignore(row, id);
    let articles = all_articles(
        subscription.document.entries,
        with_feed.feed_at(url).id,
        subscription.fetched_at,
    );
    inserted_feed_is_known(store, row, id);
    inserted_articles_are_stored(with_feed, articles);
    assert forall|i: int| 0 <= i < subscription.document.entries.len() implies store.subscribed(
        subscription,
        id,
    ).has_article(
        normalized(
            #[trigger] subscription.document.entries[i],
            store.subscribed(subscription, id).feed_at(url).id,
            subscription.fetched_at,
        ),
    ) by {
        assert(articles[i] == normalized(
            subscription.document.entries[i],
            with_feed.feed_at(url).id,
            subscription.fetched_at,
        ));
    }
}

/// A refresh keeps the articles that were stored, and where the feed is
/// not up to date with the document, it stores every entry that is new to
/// the feed.
pub proof fn refreshing_stores_every_new_entry(
    store: Store,
    position: int,
    document: DocumentView,
    now: Timestamp,
)
    requires
        0 <= position < store.feeds.len(),
    ensures
        store.articles.is_prefix_of(store.refreshed(position, document, now).articles),
        !is_current(store.feeds[position].pub_date, freshness(document)) ==> forall|i: int|
            0 <= i < document.entries.len() && is_new_entry(
                #[trigger] document.entries[i],
                store.feeds[position].pub_date,
                store.titles_of(store.feeds[position].id),
            ) ==> store.refreshed(position, document, now).has_article(
                normalized(document.entries[i], store.feeds[position].id, now),
            ),
{
    let feed = store.feeds[position];
    let titles = store.titles_of(feed.id);
    let plan = refresh_plan(feed, document, titles, now);
    let inserted = store.insert_articles_or_ignore(plan.new_items);
    let after = store.refreshed(position, document, now);
    inserted_articles_are_stored(store, plan.new_items);
    assert(after.articles == inserted.articles);
    if !is_current(feed.pub_date, freshness(document)) {
        let candidates = candidates_of(document.entries);
        new_articles_are_the_new_candidates(candidates, feed.id, feed.pub_date, titles, now);
        assert forall|i: int|
            0 <= i < document.entries.len() && is_new_entry(
                #[trigger] document.entries[i],
                feed.pub_date,
                titles,
            ) implies after.has_article(normalized(document.entries[i], feed.id, now)) by {
            let article = normalized(document.entries[i], feed.id, now);
            assert(candidates[i] == candidate_of(document.entries[i]));
            assert(is_article_of_new_candidate(
                article,
                candidates,
                feed.id,
                feed.pub_date,
                titles,
                now,
            ));
            assert(plan.new_items.contains(article));
            let j = choose|j: int| 0 <= j < plan.new_items.len() && plan.new_items[j] == article;
            assert(inserted.has_article(plan.new_items[j]));
            let k = choose|k: int|
                0 <= k < inserted.articles.len() && same_article(
                    #[trigger] inserted.articles[k],
                    article,
                );
            assert(same_article(after.articles[k], article));
        }
    }
}

/// Whether an entry can be known again: it states a readable date, or it
/// has a title.
pub open spec fn is_identifiable(entry: EntryView) -> bool {
    entry_timestamp(entry) is Some || entry.title is Some
}

/// Whether the store holds, for every entry of a document that cannot be
/// known again, the article that the entry becomes in the feed `feed_id`
/// when it is fetched at the time `now`.
pub open spec fn holds_what_cannot_be_known_again(
    store: Store,
    document: DocumentView,
    feed_id: i32,
    now: Timestamp,
) -> bool {
    forall|i: int|
        0 <= i < document.entries.len() && !is_identifiable(#[trigger] document.entries[i])
            ==> store.has_article(normalized(document.entries[i], feed_id, now))
}

/// Whether the store holds, for every entry of a document that is new to
/// the feed in the row `position`, the article that the entry becomes when
/// it is fetched at the time `now`.
pub open spec fn holds_what_is_new(
    store: Store,
    position: int,
    document: DocumentView,
    now: Timestamp,
) -> bool {
    forall|i: int|
        0 <= i < document.entries.len() && is_new_entry(
            #[trigger] document.entries[i],
            store.feeds[position].pub_date,
            store.titles_of(store.feeds[position].id),
        ) ==> store.has_article(normalized(document.entries[i], store.feeds[position].id, now))
}

/// A refresh stores no article exactly if the feed is up to date with the
/// document, or the store holds already what the entries that are new
/// become.
pub proof fn refresh_stores_nothing_iff_all_is_held(
    store: Store,
    position: int,
    document: DocumentView,
    now: Timestamp,
)
    requires
        0 <= position < store.feeds.len(),
    ensures
        store.refreshed(position, document, now).articles == store.articles <==> (is_current(
            store.feeds[position].pub_date,
            freshness(document),
        ) || holds_what_is_new(store, position, document, now)),
{
    let feed = store.feeds[position];
    let titles = store.titles_of(feed.id);
    let plan = refresh_plan(feed, document, titles, now);
    let entries = document.entries;
    let candidates = candidates_of(entries);
    let after = store.refreshed(position, document, now);
    inserted_articles_are_stored(store, plan.new_items);
    assert(after.articles == store.insert_articles_or_ignore(plan.new_items).articles);
    new_articles_are_the_new_candidates(candidates, feed.id, feed.pub_date, titles, now);
    if is_current(feed.pub_date, freshness(document)) {
        stored_articles_are_not_duplicated(store, plan.new_items);
    } else if holds_what_is_new(store, position, document, now) {
        assert forall|j: int| 0 <= j < plan.new_items.len() implies store.has_article(
            #[trigger] plan.new_items[j],
        ) by {
            assert(plan.new_items.contains(plan.new_items[j]));
            assert(is_article_of_new_candidate(
                plan.new_items[j],
                candidates,
                feed.id,
                feed.pub_date,
                titles,
                now,
            ));
            let i = choose|i: int|
                0 <= i < candidates.len() && is_new(#[trigger] candidates[i], feed.pub_date, titles)
                    && plan.new_items[j] == article_of(candidates[i], feed.id, now);
            assert(candidates[i] == candidate_of(entries[i]));
            assert(is_new_entry(entries[i], feed.pub_date, titles));
        }
        stored_articles_are_not_duplicated(store, plan.new_items);
    } else {
        let i = choose|i: int|
            0 <= i < entries.len() && is_new_entry(#[trigger] entries[i], feed.pub_date, titles)
                && !store.has_article(normalized(entries[i], feed.id, now));
        let article = normalized(entries[i], feed.id, now);
        assert(candidates[i] == candidate_of(entries[i]));
        assert(is_article_of_new_candidate(
            article,
            candidates,
            feed.id,
            feed.pub_date,
            titles,
            now,
        ));
        assert(plan.new_items.contains(article));
        let j = choose|j: int| 0 <= j < plan.new_items.len() && plan.new_items[j] == article;
        assert(store.insert_articles_or_ignore(plan.new_items).has_article(plan.new_items[j]));
        assert(after.has_article(article));
    }
}

/// Refreshing a feed a second time by the document of the first refresh
/// stores no article, whenever the second fetch was made, but for one kind
/// of entry. In a document that does not say how fresh it is, an entry
/// without a readable date and without a title has nothing by which it is
/// known again: it is stored once more, unless the store holds already
/// the article that it becomes the second time.
pub proof fn refreshing_again_adds_no_article(
    store: Store,
    position: int,
    document: DocumentView,
    first: Timestamp,
    second: Timestamp,
)
    requires
        0 <= position < store.feeds.len(),
    ensures
        store.refreshed(position, document, first).refreshed(position, document, second).articles
            == store.refreshed(position, document, first).articles <==> (freshness(document)
            is Some || holds_what_cannot_be_known_again(
            store.refreshed(position, document, first),
            document,
            store.feeds[position].id,
            second,
        )),
{
    let feed = store.feeds[position];
    let titles = store.titles_of(feed.id);
    let plan = refresh_plan(feed, document, titles, first);
    let inserted = store.insert_articles_or_ignore(plan.new_items);
    let once = store.refreshed(position, document, first);
    let entries = document.entries;
    let candidates = candidates_of(entries);
    inserted_articles_are_stored(store, plan.new_items);
    assert(once.feeds[position].id == feed.id);
    assert(once.feeds[position].pub_date == plan.watermark);
    assert(once.articles == inserted.articles);
    refresh_stores_nothing_iff_all_is_held(once, position, document, second);
    if freshness(document) is Some {
        assert(is_current(once.feeds[position].pub_date, freshness(document)));
    } else {
        new_articles_are_the_new_candidates(candidates, feed.id, feed.pub_date, titles, first);
        assert forall|i: int|
            0 <= i < entries.len() && is_identifiable(entries[i]) && is_new_entry(
                #[trigger] entries[i],
                feed.pub_date,
                once.titles_of(feed.id),
            ) implies once.has_article(normalized(entries[i], feed.id, second)) by {
            let held = normalized(entries[i], feed.id, first);
            if entry_timestamp(entries[i]) is None && titles.contains(entries[i].title->0) {
                let k = choose|k: int|
                    0 <= k < store.articles.len() && (#[trigger] store.articles[k]).feed_id
                        == feed.id && store.articles[k].title == entries[i].title->0;
                assert(once.articles[k] == store.articles[k]);
                assert(once.titles_of(feed.id).contains(entries[i].title->0));
            }
            assert(is_new_entry(entries[i], feed.pub_date, titles));
            assert(candidates[i] == candidate_of(entries[i]));
            assert(is_article_of_new_candidate(
                held,
                candidates,
                feed.id,
                feed.pub_date,
                titles,
                first,
            ));
            assert(plan.new_items.contains(held));
            let j = choose|j: int| 0 <= j < plan.new_items.len() && plan.new_items[j] == held;
            assert(inserted.has_article(plan.new_items[j]));
            let k = choose|k: int|
                0 <= k < inserted.articles.len() && same_article(
                    #[trigger] inserted.articles[k],
                    held,
                );
            assert(same_article(once.articles[k], held));
            if entry_timestamp(entries[i]) is None {
                // The article is stored under the title of the entry, so the entry
                // is not new to the feed a second time.
                assert(once.articles[k].feed_id == feed.id && once.articles[k].title
                    == entries[i].title->0);
                assert(once.titles_of(feed.id).contains(entries[i].title->0));
            }
        }
        assert forall|i: int|
            0 <= i < entries.len() && !is_identifiable(
                #[trigger] entries[i],
            ) implies is_new_entry(entries[i], feed.pub_date, once.titles_of(feed.id)) by {}
    }
}

/// Refreshing a feed by the document that it was subscribed with stores no
/// article, whenever the second fetch was made, but for one kind of entry.
/// Unless the feed is up to date with the document, an entry without a
/// readable date and without a title is stored once more, unless the store
/// holds already the article that it becomes the second time.
pub proof fn refreshing_after_subscribing_adds_no_article(
    store: Store,
    subscription: SubscriptionView,
    id: i32,
    now: Timestamp,
)
    ensures
        ({
            let once = store.subscribed(subscription, id);
            let feed = once.feed_at(subscription.url);
            once.refreshed(
                once.position_of(subscription.url),
                subscription.document,
                now,
            ).articles == once.articles <==> (is_current(
                feed.pub_date,
                freshness(subscription.document),
            ) || holds_what_cannot_be_known_again(once, subscription.document, feed.id, now))
        }),
{
    let url = subscription.url;
    let entries = subscription.document.entries;
    let row = new_channel_of(subscription.document, url, subscription.fetched_at);
    let with_feed = store.insert_feed_or_ignore(row, id);
    let feed_id = with_feed.feed_at(url).id;
    let articles = all_articles(entries, feed_id, subscription.fetched_at);
    let once = store.subscribed(subscription, id);
    inserted_feed_is_known(store, row, id);
    inserted_articles_are_stored(with_feed, articles);
    let position = once.position_of(url);
    assert(position == with_feed.position_of(url));
    let feed = once.feeds[position];
    refresh_stores_nothing_iff_all_is_held(once, position, subscription.document, now);
    assert forall|i: int|
        0 <= i < entries.len() && is_identifiable(entries[i]) && is_new_entry(
            #[trigger] entries[i],
            feed.pub_date,
            once.titles_of(feed.id),
        ) implies once.has_article(normalized(entries[i], feed.id, now)) by {
        let held = normalized(entries[i], feed_id, subscription.fetched_at);
        assert(articles[i] == held);
        assert(once.has_article(articles[i]));
        if entry_timestamp(entries[i]) is None {
            let k = choose|k: int|
                0 <= k < once.articles.len() && same_article(#[trigger] once.articles[k], held);
            assert(once.articles[k].feed_id == feed.id && once.articles[k].title
                == entries[i].title->0);
            assert(once.titles_of(feed.id).contains(entries[i].title->0));
        }
    }
    assert forall|i: int|
        0 <= i < entries.len() && !is_identifiable(#[trigger] entries[i]) implies is_new_entry(
        entries[i],
        feed.pub_date,
        once.titles_of(feed.id),
    ) by {}
}

} // verus!
