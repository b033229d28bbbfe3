//! The rows of the store, and the forms in which feeds and articles leave
//! the engine for the interface.

use crate::dates::{date_text, month_day_year};
use crate::text::{copy_of, copy_or, text_or};
use crate::timestamp::Timestamp;
use vstd::prelude::*;

verus! {

/// The title of an article whose source gave none.
pub const UNTITLED: &'static str = "[Untitled Post]";

/// The body shown for a stored article without one.
pub const NO_CONTENT: &'static str = "[no content found for this post]";

/// A stored feed.
#[derive(Clone, Debug, PartialEq, Eq)]
pub struct Channel {
    pub id: i32,
    pub url: Option<String>,
    pub subscribed: Option<bool>,
    /// The newest publish timestamp known for the feed: its watermark.
    pub pub_date: Timestamp,
    pub title: Option<String>,
}

/// A feed that the store has not seen yet.
#[derive(Clone, Debug, PartialEq, Eq)]
pub struct NewChannel<'a> {
    pub url: &'a str,
    pub subscribed: bool,
    pub pub_date: Timestamp,
    pub title: &'a str,
}

/// A feed as the interface shows it.
#[derive(Clone, Debug, PartialEq, Eq)]
pub struct SendChannel {
    pub id: i32,
    pub url: String,
    pub date: String,
    pub title: String,
    pub subscribed: bool,
}

/// A stored article.
#[derive(Clone, Debug, PartialEq, Eq)]
pub struct Item {
    pub id: i32,
    pub url: Option<String>,
    pub feed_id: Option<i32>,
    pub read: Option<bool>,
    pub pub_date: Timestamp,
    pub content: Option<String>,
    pub title: Option<String>,
}

/// An article that the store has not seen yet.
#[derive(Clone, Debug, PartialEq, Eq)]
pub struct NewItem {
    pub url: Option<String>,
    pub feed_id: i32,
    pub pub_date: Timestamp,
    pub content: String,
    pub title: String,
    pub read: bool,
}

/// An article as the interface shows it.
#[derive(Clone, Debug, PartialEq, Eq)]
pub struct SendItem {
    pub id: i32,
    pub url: Option<String>,
    pub feed_id: i32,
    pub date: String,
    pub content: String,
    pub title: String,
}

/// A label.
#[derive(Clone, Debug, PartialEq, Eq)]
pub struct Tag<'a> {
    pub id: i32,
    pub name: &'a str,
}

/// A label put on an article.
#[derive(Clone, Copy, Debug, PartialEq, Eq)]
pub struct Link {
    pub id: i32,
    pub item_id: i32,
    pub tag_id: i32,
}

/// The model of `Channel` that contracts speak of.
pub struct ChannelView {
    pub id: i32,
    pub url: Option<Seq<char>>,
    pub subscribed: Option<bool>,
    pub pub_date: Timestamp,
    pub title: Option<Seq<char>>,
}

/// The model of `NewChannel` that contracts speak of.
pub struct NewChannelView {
    pub url: Seq<char>,
    pub subscribed: bool,
    pub pub_date: Timestamp,
    pub title: Seq<char>,
}

/// The model of `Item` that contracts speak of.
pub struct ItemView {
    pub id: i32,
    pub url: Option<Seq<char>>,
    pub feed_id: Option<i32>,
    pub read: Option<bool>,
    pub pub_date: Timestamp,
    pub content: Option<Seq<char>>,
    pub title: Option<Seq<char>>,
}

/// The model of `NewItem` that contracts speak of.
pub struct NewItemView {
    pub url: Option<Seq<char>>,
    pub feed_id: i32,
    pub pub_date: Timestamp,
    pub content: Seq<char>,
    pub title: Seq<char>,
    pub read: bool,
}

impl DeepView for Channel {
    type V = ChannelView;

    open spec fn deep_view(&self) -> ChannelView {
        ChannelView {
            id: self.id,
            url: self.url.deep_view(),
            subscribed: self.subscribed,
            pub_date: self.pub_date,
            title: self.title.deep_view(),
        }
    }
}

impl View for Channel {
    type V = ChannelView;

    open spec fn view(&self) -> ChannelView {
        self.deep_view()
    }
}

impl<'a> DeepView for NewChannel<'a> {
    type V = NewChannelView;

    open spec fn deep_view(&self) -> NewChannelView {
        NewChannelView {
            url: self.url@,
            subscribed: self.subscribed,
            pub_date: self.pub_date,
            title: self.title@,
        }
    }
}

impl<'a> View for NewChannel<'a> {
    type V = NewChannelView;

    open spec fn view(&self) -> NewChannelView {
        self.deep_view()
    }
}

impl DeepView for Item {
    type V = ItemView;

    open spec fn deep_view(&self) -> ItemView {
        ItemView {
            id: self.id,
            url: self.url.deep_view(),
            feed_id: self.feed_id,
            read: self.read,
            pub_date: self.pub_date,
            content: self.content.deep_view(),
            title: self.title.deep_view(),
        }
    }
}

impl View for Item {
    type V = ItemView;

    open spec fn view(&self) -> ItemView {
        self.deep_view()
    }
}

impl DeepView for NewItem {
    type V = NewItemView;

    open spec fn deep_view(&self) -> NewItemView {
        NewItemView {
            url: self.url.deep_view(),
            feed_id: self.feed_id,
            pub_date: self.pub_date,
            content: self.content@,
            title: self.title@,
            read: self.read,
        }
    }
}

impl View for NewItem {
    type V = NewItemView;

    open spec fn view(&self) -> NewItemView {
        self.deep_view()
    }
}

/// The flag of a feed; a feed whose flag was never set counts as subscribed.
pub open spec fn subscribed_or_default(flag: Option<bool>) -> bool {
    match flag {
        Some(b) => b,
        None => true,
    }
}

/// The model of `SendChannel` that contracts speak of.
pub struct SendChannelView {
    pub id: i32,
    pub url: Seq<char>,
    pub date: Seq<char>,
    pub title: Seq<char>,
    pub subscribed: bool,
}

/// The model of `SendItem` that contracts speak of.
pub struct SendItemView {
    pub id: i32,
    pub url: Option<Seq<char>>,
    pub feed_id: i32,
    pub date: Seq<char>,
    pub content: Seq<char>,
    pub title: Seq<char>,
}

impl DeepView for SendChannel {
    type V = SendChannelView;

    open spec fn deep_view(&self) -> SendChannelView {
        SendChannelView {
            id: self.id,
            url: self.url@,
            date: self.date@,
            title: self.title@,
            subscribed: self.subscribed,
        }
    }
}

impl View for SendChannel {
    type V = SendChannelView;

    open spec fn view(&self) -> SendChannelView {
        self.deep_view()
    }
}

impl DeepView for SendItem {
    type V = SendItemView;

    open spec fn deep_view(&self) -> SendItemView {
        SendItemView {
            id: self.id,
            url: self.url.deep_view(),
            feed_id: self.feed_id,
            date: self.date@,
            content: self.content@,
            title: self.title@,
        }
    }
}

impl View for SendItem {
    type V = SendItemView;

    open spec fn view(&self) -> SendItemView {
        self.deep_view()
    }
}

/// Whether a stored feed can be shown: it has an address and a title, and
/// its watermark is a date that exists.
pub open spec fn is_sendable_channel(channel: ChannelView) -> bool {
    channel.url is Some && channel.title is Some && channel.pub_date.wf()
}

/// Whether a stored article can be shown: it belongs to a feed, and its
/// publish timestamp is a date that exists.
pub open spec fn is_sendable_item(item: ItemView) -> bool {
    item.feed_id is Some && item.pub_date.wf()
}

/// A stored feed as the interface shows it: its address and title as
/// stored, its watermark as a day, and its flag.
pub open spec fn sent_channel(channel: ChannelView) -> SendChannelView {
    SendChannelView {
        id: channel.id,
        url: channel.url.unwrap(),
        date: month_day_year(channel.pub_date),
        title: channel.title.unwrap(),
        subscribed: subscribed_or_default(channel.subscribed),
    }
}

/// A stored article as the interface shows it: its publish timestamp as a
/// day, and a placeholder in place of a missing body or title.
pub open spec fn sent_item(item: ItemView) -> SendItemView {
    SendItemView {
        id: item.id,
        url: item.url,
        feed_id: item.feed_id.unwrap(),
        date: month_day_year(item.pub_date),
        content: text_or(item.content, NO_CONTENT@),
        title: text_or(item.title, UNTITLED@),
    }
}

/// The articles of the feed `feed_id` among `items` as the interface shows
/// them, in the order of `items`.
pub open spec fn sent_items_of(items: Seq<ItemView>, feed_id: i32) -> Seq<SendItemView>
    decreases items.len(),
{
    if items.len() == 0 {
        Seq::empty()
    } else {
        let earlier = sent_items_of(items.drop_last(), feed_id);
        if items.last().feed_id == Some(feed_id) {
            earlier.push(sent_item(items.last()))
        } else {
            earlier
        }
    }
}

impl Channel {
    /// Tests whether the feed can be shown.
    pub fn is_sendable(&self) -> (r: bool)
        ensures
            r == is_sendable_channel(self@),
    {
        self.url.is_some() && self.title.is_some() && self.pub_date.is_well_formed()
    }
}

impl Item {
    /// Tests whether the article can be shown.
    pub fn is_sendable(&self) -> (r: bool)
        ensures
            r == is_sendable_item(self@),
    {
        self.feed_id.is_some() && self.pub_date.is_well_formed()
    }
}

impl SendChannel {
    /// Gives the form of a stored feed for the interface.
    pub fn from(channel: &Channel) -> (r: SendChannel)
        requires
            is_sendable_channel(channel@),
        ensures
            r@ == sent_channel(channel@),
    {
        SendChannel {
            id: channel.id,
            url: channel.url.as_ref().unwrap().clone(),
            date: date_text(&channel.pub_date),
            title: channel.title.as_ref().unwrap().clone(),
            subscribed: channel.subscribed.unwrap_or(true),
        }
    }
}

impl SendItem {
    /// Gives the form of a stored article for the interface.
    pub fn from(item: &Item) -> (r: SendItem)
        requires
            is_sendable_item(item@),
        ensures
            r@ == sent_item(item@),
    {
        SendItem {
            id: item.id,
            url: copy_of(&item.url),
            feed_id: item.feed_id.unwrap(),
            date: date_text(&item.pub_date),
            content: copy_or(&item.content, NO_CONTENT),
            title: copy_or(&item.title, UNTITLED),
        }
    }
}

/// Gives the stored feeds in the form for the interface, in their order.
pub fn send_all_channels(channels: &[Channel]) -> (r: Vec<SendChannel>)
    requires
        forall|i: int| 0 <= i < channels.len() ==> is_sendable_channel((#[trigger] channels[i])@),
    ensures
        r.deep_view() == Seq::new(channels.len() as nat, |i: int| sent_channel(channels[i]@)),
{
    let mut out: Vec<SendChannel> = Vec::new();
    let mut i: usize = 0;
    while i < channels.len()
        invariant
            i <= channels.len(),
            out.len() == i,
            forall|k: int|
                0 <= k < channels.len() ==> is_sendable_channel((#[trigger] channels[k])@),
            forall|k: int| 0 <= k < i ==> (#[trigger] out[k])@ == sent_channel(channels[k]@),
        decreases channels.len() - i,
    {
        out.push(SendChannel::from(&channels[i]));
        i += 1;
    }
    assert(out.deep_view() =~= Seq::new(
        channels.len() as nat,
        |i: int| sent_channel(channels[i]@),
    ));
    out
}

/// Gives the stored articles in the form for the interface, in their order.
pub fn send_all_items(items: &[Item]) -> (r: Vec<SendItem>)
    requires
        forall|i: int| 0 <= i < items.len() ==> is_sendable_item((#[trigger] items[i])@),
    ensures
        r.deep_view() == Seq::new(items.len() as nat, |i: int| sent_item(items[i]@)),
{
    let mut out: Vec<SendItem> = Vec::new();
    let mut i: usize = 0;
    while i < items.len()
        invariant
            i <= items.len(),
            out.len() == i,
            forall|k: int| 0 <= k < items.len() ==> is_sendable_item((#[trigger] items[k])@),
            forall|k: int| 0 <= k < i ==> (#[trigger] out[k])@ == sent_item(items[k]@),
        decreases items.len() - i,
    {
        out.push(SendItem::from(&items[i]));
        i += 1;
    }
    assert(out.deep_view() =~= Seq::new(items.len() as nat, |i: int| sent_item(items[i]@)));
    out
}

/// Gives the articles of the feed `feed_id` among the stored articles
/// `items` in the form for the interface, in the order of `items`.
pub fn send_items_by_feed(feed_id: i32, items: &[Item]) -> (r: Vec<SendItem>)
    requires
        forall|i: int|
            0 <= i < items.len() && (#[trigger] items[i]).feed_id == Some(feed_id)
                ==> items[i].pub_date.wf(),
    ensures
        r.deep_view() == sent_items_of(items.deep_view(), feed_id),
{
    let ghost rows = items.deep_view();
    let mut out: Vec<SendItem> = Vec::new();
    let mut i: usize = 0;
    while i < items.len()
        invariant
            i <= items.len(),
            rows == items.deep_view(),
            forall|k: int|
                0 <= k < items.len() && (#[trigger] items[k]).feed_id == Some(feed_id)
                    ==> items[k].pub_date.wf(),
            out.deep_view() == sent_items_of(rows.take(i as int), feed_id),
        decreases items.len() - i,
    {
        let ghost before = out.deep_view();
        proof {
            assert(rows.take(i + 1).drop_last() =~= rows.take(i as int));
            assert(rows.take(i + 1).last() == items[i as int]@);
        }
        let belongs = match items[i].feed_id {
            Some(owner) => owner == feed_id,
            None => false,
        };
        if belongs {
            let shown = SendItem::from(&items[i]);
            out.push(shown);
            assert(out.deep_view() =~= before.push(shown@));
        }
        i += 1;
    }
    assert(rows.take(i as int) =~= rows);
    out
}

} // verus!
