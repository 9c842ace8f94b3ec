//! The relay's state and its decisions: which chat command it answers, which
//! feed entry it posts, and what it remembers of the entries it posted.

use vstd::prelude::*;

use crate::channel::items_view;
use crate::item::{
    embed_is, entry_id, entry_id_at, feed_embed, feed_format, spec_entry_id_at, spec_feed_format,
    FeedEmbed, FeedItem, FeedItemView,
};
use crate::str_map::{Duplicate, StrMap};

verus! {

/// The relay's state: for each feed URL, the identifier of the last entry it
/// posted, and for each feed URL, the chat channel that receives it.
pub struct Handler {
    pub last_entry_ids: StrMap<String>,
    pub feeds: StrMap<u64>,
}

/// What the relay posts for a new entry, and the identifier to remember once
/// it is posted.
pub struct FeedPost {
    pub entry_id: String,
    pub message: String,
    pub embed: FeedEmbed,
}

/// Whether an entry with identifier `id` is new for the feed `url`, given the
/// identifiers last posted per feed: it is, unless `id` is the one last
/// posted for that feed.
pub open spec fn entry_is_new(last: Map<Seq<char>, String>, url: Seq<char>, id: Seq<char>) -> bool {
    !(last.contains_key(url) && last[url]@ == id)
}

/// The channel that the `!rss` command is answered in: that of the first feed,
/// or 0 where there is none.
pub open spec fn first_channel_id(feeds: Seq<(Seq<char>, u64)>) -> u64 {
    if feeds.len() == 0 {
        0
    } else {
        feeds[0].1
    }
}

/// The reply to the `!rss` command.
pub open spec fn rss_command_reply() -> Seq<char> {
    "Checking RSS feed..."@
}

impl Handler {
    /// Whether `res` is what the relay decides for the feed `url` whose
    /// entries are `items`, at the time `now`: nothing where the feed has no
    /// entry or its first entry is not new; else a post of the first entry.
    pub open spec fn post_is(
        &self,
        url: Seq<char>,
        items: Seq<FeedItemView>,
        now: int,
        res: Option<FeedPost>,
    ) -> bool {
        if items.len() == 0 {
            res is None
        } else {
            let id = spec_entry_id_at(items[0], now);
            if entry_is_new(self.last_entry_ids@, url, id) {
                &&& res matches Some(p)
                &&& p.entry_id@ == id
                &&& p.message@ == spec_feed_format(items[0])
                &&& embed_is(p.embed, items[0])
            } else {
                res is None
            }
        }
    }

    /// The answer to a chat message `content`: the `!rss` command is answered
    /// with `Checking RSS feed...` in the channel of the first feed, or in
    /// channel 0 where there is no feed; other messages are not answered.
    pub fn rss_command(&self, content: &str) -> (reply: Option<(u64, String)>)
        ensures
            reply is Some <==> content@ == "!rss"@,
            reply matches Some((id, text)) ==> id == first_channel_id(self.feeds.pairs())
                && text@ == rss_command_reply(),
            reply matches Some((id, _)) ==> (self.feeds.pairs().len() > 0 ==> id
                == self.feeds.pairs()[0].1) && (self.feeds.pairs().len() == 0 ==> id == 0),
    {
        if content.to_owned() == "!rss".to_owned() {
            let id = if self.feeds.len() == 0 {
                0
            } else {
                *self.feeds.value_at(0)
            };
            Some((id, "Checking RSS feed...".to_owned()))
        } else {
            None
        }
    }

    /// Whether the entry `id` is new for the feed `url`.
    pub fn is_new_entry(&self, url: &str, id: &String) -> (new: bool)
        ensures
            new == entry_is_new(self.last_entry_ids@, url@, id@),
            new <==> !(self.last_entry_ids@.contains_key(url@) && self.last_entry_ids@[url@]@
                == id@),
    {
        match self.last_entry_ids.get(url) {
            Some(last) => !(*last == *id),
            None => true,
        }
    }

    /// The post for the feed `url` whose entries are `items`, at the time `now`
    /// (see `post_is`).
    pub fn feed_post_at(&self, url: &str, items: &Vec<FeedItem>, now: i64) -> (res: Option<FeedPost>)
        ensures
            self.post_is(url@, items_view(items@), now as int, res),
    {
        if items.len() == 0 {
            return None;
        }
        let first = &items[0];
        let id = entry_id_at(first, now);
        self.post_for(url, first, id)
    }

    /// The post of `item` under the identifier `id`, where `id` is new.
    fn post_for(&self, url: &str, item: &FeedItem, id: String) -> (res: Option<FeedPost>)
        ensures
            entry_is_new(self.last_entry_ids@, url@, id@) ==> (res matches Some(p) && p.entry_id@
                == id@ && p.message@ == spec_feed_format(item@) && embed_is(p.embed, item@)),
            !entry_is_new(self.last_entry_ids@, url@, id@) ==> res is None,
    {
        if self.is_new_entry(url, &id) {
            Some(FeedPost { entry_id: id, message: feed_format(item), embed: feed_embed(item) })
        } else {
            None
        }
    }

    /// The post for the feed `url` whose entries are `items`, now: the
    /// identifier of an entry without guid depends on the clock, so the
    /// decision is that of `post_is` at some time.
    pub fn feed_post(&self, url: &str, items: &Vec<FeedItem>) -> (res: Option<FeedPost>)
        ensures
            exists|now: i64| self.post_is(url@, items_view(items@), now as int, res),
    {
        if items.len() == 0 {
            assert(self.post_is(url@, items_view(items@), 0, None));
            return None;
        }
        let first = &items[0];
        let id = entry_id(first);
        let ghost now: i64 = if first@.guid is Some {
            0
        } else {
            choose|t: i64| id@ == crate::item::default_entry_id(t as int)
        };
        assert(items_view(items@)[0] == first@);
        assert(id@ == spec_entry_id_at(first@, now as int));
        let res = self.post_for(url, first, id);
        assert(self.post_is(url@, items_view(items@), now as int, res));
        res
    }

    /// Remembers `id` as the last entry posted for the feed `url`.
    pub fn record_entry(&mut self, url: String, id: String)
        ensures
            final(self).last_entry_ids@ == old(self).last_entry_ids@.insert(url@, id),
            final(self).feeds.pairs() == old(self).feeds.pairs(),
    {
        self.last_entry_ids.insert(url, id);
    }
}

impl Clone for Handler {
    fn clone(&self) -> (res: Self)
        ensures
            res.last_entry_ids.pairs() == self.last_entry_ids.pairs(),
            res.last_entry_ids@ == self.last_entry_ids@,
            res.feeds.pairs() == self.feeds.pairs(),
            res.feeds@ == self.feeds@,
    {
        Handler {
            last_entry_ids: self.last_entry_ids.duplicate_map(),
            feeds: self.feeds.duplicate_map(),
        }
    }
}

/// Once the relay has posted an entry and remembered its identifier, it does
/// not post that entry again for the same feed: where the entry has a guid, at
/// any later time; where it has none, at the same time (a later time gives a
/// new default identifier, so the entry counts as new again).
pub proof fn lemma_posted_entry_not_reposted(
    before: Handler,
    after: Handler,
    url: Seq<char>,
    items: Seq<FeedItemView>,
    now: int,
    later: int,
    post: FeedPost,
    res: Option<FeedPost>,
)
    requires
        before.post_is(url, items, now, Some(post)),
        after.last_entry_ids@ == before.last_entry_ids@.insert(url, post.entry_id),
        items.len() > 0 && (items[0].guid is Some || later == now),
        after.post_is(url, items, later, res),
    ensures
        res is None,
{
}

/// Remembering an entry for one feed leaves the decisions for every other
/// feed as they were.
pub proof fn lemma_record_keeps_other_feeds(
    last: Map<Seq<char>, String>,
    url: Seq<char>,
    id: String,
    other: Seq<char>,
    other_id: Seq<char>,
)
    requires
        other != url,
    ensures
        entry_is_new(last.insert(url, id), other, other_id) == entry_is_new(last, other, other_id),
{
}

/// An entry is new for its feed exactly when its identifier differs from the
/// identifier last posted for that feed, or nothing was posted for it yet.
pub proof fn lemma_entry_is_new_iff_different(
    last: Map<Seq<char>, String>,
    url: Seq<char>,
    id: Seq<char>,
)
    ensures
        entry_is_new(last, url, id) <==> !(last.contains_key(url) && last[url]@ == id),
        !last.contains_key(url) ==> entry_is_new(last, url, id),
        last.contains_key(url) && last[url]@ != id ==> entry_is_new(last, url, id),
{
}

/// The first entry of a feed is posted exactly when its guid differs from the
/// identifier last posted for the feed: then the post carries that guid and
/// the entry's message; when the guid is the one last posted, nothing is
/// posted.
pub proof fn lemma_post_decided_by_last_id(
    h: Handler,
    url: Seq<char>,
    items: Seq<FeedItemView>,
    now: int,
    res: Option<FeedPost>,
    g: Seq<char>,
)
    requires
        h.post_is(url, items, now, res),
        items.len() > 0,
        items[0].guid == Some(g),
    ensures
        !(h.last_entry_ids@.contains_key(url) && h.last_entry_ids@[url]@ == g) ==> (res matches Some(
            p,
        ) && p.entry_id@ == g && p.message@ == spec_feed_format(items[0])),
        (h.last_entry_ids@.contains_key(url) && h.last_entry_ids@[url]@ == g) ==> res is None,
{
}

/// With at least one feed, the `!rss` command is answered in the channel of
/// the first feed, one of the configured channels; channel 0 is used only
/// where there is no feed.
pub proof fn lemma_rss_command_channel_is_configured(feeds: Seq<(Seq<char>, u64)>)
    ensures
        feeds.len() > 0 ==> first_channel_id(feeds) == feeds[0].1,
        feeds.len() > 0 ==> exists|i: int| 0 <= i < feeds.len() && feeds[i].1 == first_channel_id(feeds),
        feeds.len() == 0 ==> first_channel_id(feeds) == 0,
{
    if feeds.len() > 0 {
        assert(feeds[0].1 == first_channel_id(feeds));
    }
}

} // verus!
