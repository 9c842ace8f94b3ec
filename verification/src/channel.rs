//! Reading an RSS channel from the bytes of a document, with the `rss` crate,
//! and the errors that a feed update can end in.

use vstd::prelude::*;

use crate::item::{FeedItem, FeedItemView};
use rss::validation::Validate;

verus! {

#[verifier::external_type_specification]
#[verifier::external_body]
pub struct ExRssChannel(rss::Channel);

#[verifier::external_type_specification]
#[verifier::external_body]
pub struct ExRssError(rss::Error);

#[verifier::external_type_specification]
#[verifier::external_body]
pub struct ExValidationError(rss::validation::ValidationError);

#[verifier::external_type_specification]
#[verifier::external_body]
pub struct ExReqwestError(reqwest::Error);

#[verifier::external_type_specification]
#[verifier::external_body]
pub struct ExSerenityError(serenity::Error);

/// Whether `rss::Channel::read_from` accepts the document `content`.
pub uninterp spec fn rss_reads(content: Seq<u8>) -> bool;

/// Whether `Validate::validate` accepts the channel read from `content`.
pub uninterp spec fn rss_validates(content: Seq<u8>) -> bool;

/// The entries of the channel read from `content`, in document order.
pub uninterp spec fn rss_items(content: Seq<u8>) -> Seq<FeedItemView>;

/// A channel as the `rss` crate read it, with the document it came from.
pub struct RssChannel {
    raw: rss::Channel,
    source: Ghost<Seq<u8>>,
}

impl RssChannel {
    /// The document this channel was read from.
    pub closed spec fn source(&self) -> Seq<u8> {
        self.source@
    }
}

/// The views of `items`, in order.
pub open spec fn items_view(items: Seq<FeedItem>) -> Seq<FeedItemView> {
    Seq::new(items.len(), |i: int| items[i]@)
}

/// Reads a channel with `rss::Channel::read_from`. Claimed: it succeeds
/// exactly where `rss_reads` holds of the bytes, and the channel remembers
/// them. What the channel holds is left to the other wrappers' names.
#[verifier::external_body]
fn read_channel(content: &[u8]) -> (res: Result<RssChannel, rss::Error>)
    ensures
        res is Ok <==> rss_reads(content@),
        res matches Ok(c) ==> c.source() == content@,
{
    rss::Channel::read_from(content).map(|raw| RssChannel { raw, source: Ghost(content@) })
}

/// Checks a channel with `rss::validation::Validate::validate`. Claimed: it
/// succeeds exactly where `rss_validates` holds of the document the channel
/// was read from; which error it gives otherwise is not stated.
#[verifier::external_body]
fn validate_channel(channel: &RssChannel) -> (res: Result<(), rss::validation::ValidationError>)
    ensures
        res is Ok <==> rss_validates(channel.source()),
{
    channel.raw.validate()
}

/// The entries of a channel, from `rss::Channel::items` and, for each entry,
/// the accessors `title`, `description`, `link`, `pub_date`, `guid` (its
/// `value`) and `enclosure` (its `url`), which hand out the stored fields.
/// Claimed: the result is `rss_items` of the document the channel was read from.
#[verifier::external_body]
fn channel_items(channel: &RssChannel) -> (items: Vec<FeedItem>)
    ensures
        items_view(items@) == rss_items(channel.source()),
{
    channel.raw.items().iter().map(|i| FeedItem {
        title: i.title().map(String::from),
        description: i.description().map(String::from),
        link: i.link().map(String::from),
        pub_date: i.pub_date().map(String::from),
        guid: i.guid().map(|g| g.value().to_string()),
        thumbnail: i.enclosure().map(|e| e.url().to_string()),
    }).collect()
}

/// The ways a feed update fails.
#[derive(Debug)]
pub enum FeedError {
    /// The document could not be fetched.
    Reqwest(reqwest::Error),
    /// The chat service refused a request.
    Serenity(serenity::Error),
    /// The document is not an RSS channel.
    Rss(rss::Error),
    /// The channel is not valid RSS.
    Validation(rss::validation::ValidationError),
}

impl From<reqwest::Error> for FeedError {
    fn from(e: reqwest::Error) -> (r: Self) {
        FeedError::Reqwest(e)
    }
}

impl vstd::std_specs::convert::FromSpecImpl<reqwest::Error> for FeedError {
    open spec fn obeys_from_spec() -> bool {
        true
    }

    open spec fn from_spec(e: reqwest::Error) -> Self {
        FeedError::Reqwest(e)
    }
}

impl From<serenity::Error> for FeedError {
    fn from(e: serenity::Error) -> (r: Self) {
        FeedError::Serenity(e)
    }
}

impl vstd::std_specs::convert::FromSpecImpl<serenity::Error> for FeedError {
    open spec fn obeys_from_spec() -> bool {
        true
    }

    open spec fn from_spec(e: serenity::Error) -> Self {
        FeedError::Serenity(e)
    }
}

impl From<rss::Error> for FeedError {
    fn from(e: rss::Error) -> (r: Self) {
        FeedError::Rss(e)
    }
}

impl vstd::std_specs::convert::FromSpecImpl<rss::Error> for FeedError {
    open spec fn obeys_from_spec() -> bool {
        true
    }

    open spec fn from_spec(e: rss::Error) -> Self {
        FeedError::Rss(e)
    }
}

impl From<rss::validation::ValidationError> for FeedError {
    fn from(e: rss::validation::ValidationError) -> (r: Self) {
        FeedError::Validation(e)
    }
}

impl vstd::std_specs::convert::FromSpecImpl<rss::validation::ValidationError> for FeedError {
    open spec fn obeys_from_spec() -> bool {
        true
    }

    open spec fn from_spec(e: rss::validation::ValidationError) -> Self {
        FeedError::Validation(e)
    }
}

/// Reads and validates the RSS document `content` and gives its entries.
/// A document that the reader refuses is an `Rss` error; a channel that
/// validation refuses is a `Validation` error; otherwise the entries come out
/// in document order.
pub fn feed_read(content: &[u8]) -> (res: Result<Vec<FeedItem>, FeedError>)
    ensures
        !rss_reads(content@) ==> res matches Err(FeedError::Rss(_)),
        rss_reads(content@) && !rss_validates(content@) ==> res matches Err(
            FeedError::Validation(_),
        ),
        rss_reads(content@) && rss_validates(content@) ==> (res matches Ok(items) && items_view(
            items@,
        ) == rss_items(content@)),
{
    let channel = match read_channel(content) {
        Ok(c) => c,
        Err(e) => {
            return Err(FeedError::Rss(e));
        },
    };
    match validate_channel(&channel) {
        Ok(()) => {},
        Err(e) => {
            return Err(FeedError::Validation(e));
        },
    }
    Ok(channel_items(&channel))
}

} // verus!

verus! {

/// The text of the error inside a failed update, which its type's `Display`
/// writes.
pub open spec fn displays_as<T: core::fmt::Display>(e: &T, text: Seq<char>) -> bool {
    exists|s: String| vstd::string::to_string_from_display_ensures::<T>(e, s) && s@ == text
}

/// `prefix` followed by the text of `e`.
fn prefixed<T: core::fmt::Display>(prefix: &str, e: &T) -> (s: String)
    ensures
        exists|t: Seq<char>| displays_as(e, t) && s@ == prefix@ + t,
{
    let inner = e.to_string();
    let mut s = prefix.to_owned();
    s.append(inner.as_str());
    assert(displays_as(e, inner@));
    s
}

impl FeedError {
    /// The text of the error: `Reqwest error: `, `Serenity error: `,
    /// `RSS error: ` or `Validation error: `, followed by the text of the error
    /// inside.
    pub fn message(&self) -> (s: String)
        ensures
            match self {
                FeedError::Reqwest(e) => exists|t: Seq<char>| displays_as(e, t) && s@ == "Reqwest error: "@ + t,
                FeedError::Serenity(e) => exists|t: Seq<char>| displays_as(e, t) && s@ == "Serenity error: "@ + t,
                FeedError::Rss(e) => exists|t: Seq<char>| displays_as(e, t) && s@ == "RSS error: "@ + t,
                FeedError::Validation(e) => exists|t: Seq<char>| displays_as(e, t) && s@ == "Validation error: "@ + t,
            },
    {
        match self {
            FeedError::Reqwest(e) => prefixed("Reqwest error: ", e),
            FeedError::Serenity(e) => prefixed("Serenity error: ", e),
            FeedError::Rss(e) => prefixed("RSS error: ", e),
            FeedError::Validation(e) => prefixed("Validation error: ", e),
        }
    }
}

} // verus!
