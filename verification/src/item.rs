//! Feed entries and what the relay makes of them: the chat message, the embed,
//! and the identifier by which an entry is recognised again.

use vstd::prelude::*;

use crate::number::{decimal, decimal_i64};
use crate::text::{
    chars_of, lemma_remove_all_keeps_other_text, lemma_remove_all_keeps_text_without_pattern_start,
    lemma_remove_all_removes_only_pattern, lemma_truncate_bounds, or_default, remove_all, remove_occurrences, string_of, truncate, truncate_chars,
};

verus! {

/// The fields of one feed entry that the relay reads.
pub struct FeedItem {
    pub title: Option<String>,
    pub description: Option<String>,
    pub link: Option<String>,
    pub pub_date: Option<String>,
    /// The value of the entry's guid.
    pub guid: Option<String>,
    /// The URL of the entry's enclosure.
    pub thumbnail: Option<String>,
}

/// A feed entry as text values.
pub ghost struct FeedItemView {
    pub title: Option<Seq<char>>,
    pub description: Option<Seq<char>>,
    pub link: Option<Seq<char>>,
    pub pub_date: Option<Seq<char>>,
    pub guid: Option<Seq<char>>,
    pub thumbnail: Option<Seq<char>>,
}

/// The text of an optional string.
pub open spec fn opt_view(s: Option<String>) -> Option<Seq<char>> {
    match s {
        Some(t) => Some(t@),
        None => None,
    }
}

impl View for FeedItem {
    type V = FeedItemView;

    open spec fn view(&self) -> FeedItemView {
        FeedItemView {
            title: opt_view(self.title),
            description: opt_view(self.description),
            link: opt_view(self.link),
            pub_date: opt_view(self.pub_date),
            guid: opt_view(self.guid),
            thumbnail: opt_view(self.thumbnail),
        }
    }
}

/// The longest description, in characters, that a chat message carries.
pub const MESSAGE_DESCRIPTION_LIMIT: usize = 2000;

/// The longest description, in characters, that an embed carries.
pub const EMBED_DESCRIPTION_LIMIT: usize = 2048;

/// `s` without the markup that feeds put in descriptions: the tags `<p>`,
/// `</p>`, `<strong>`, `</strong>` and the comment `<!-- raw HTML omitted -->`,
/// removed in that order, each in one pass from left to right.
pub open spec fn strip_markup(s: Seq<char>) -> Seq<char> {
    remove_all(
        remove_all(
            remove_all(remove_all(remove_all(s, "<p>"@), "</p>"@), "<strong>"@),
            "</strong>"@,
        ),
        "<!-- raw HTML omitted -->"@,
    )
}

/// The title of an entry as the relay shows it.
pub open spec fn shown_title(item: FeedItemView) -> Seq<char> {
    or_default(item.title, "No title"@)
}

/// The publication date of an entry as the relay shows it.
pub open spec fn shown_pub_date(item: FeedItemView) -> Seq<char> {
    or_default(item.pub_date, "No publication date"@)
}

/// The link of an entry as the relay shows it.
pub open spec fn shown_link(item: FeedItemView) -> Seq<char> {
    or_default(item.link, "No link"@)
}

/// The description of an entry without markup, cut to `limit` characters.
pub open spec fn shown_description(item: FeedItemView, limit: nat) -> Seq<char> {
    truncate(strip_markup(or_default(item.description, "No description"@)), limit)
}

/// The chat message for an entry:
/// `**{title}**\n*Published: {date}*\n{description}\n[{title}]({link})`.
pub open spec fn spec_feed_format(item: FeedItemView) -> Seq<char> {
    "**"@ + shown_title(item) + "**\n*Published: "@ + shown_pub_date(item) + "*\n"@
        + shown_description(item, MESSAGE_DESCRIPTION_LIMIT as nat) + "\n["@ + shown_title(item)
        + "]("@ + shown_link(item) + ")"@
}

/// The markup-free description of `text`, cut to `limit` characters.
fn description_text(text: &Option<String>, limit: usize) -> (s: Vec<char>)
    ensures
        s@ == truncate(strip_markup(or_default(opt_view(*text), "No description"@)), limit as nat),
{
    let raw = match text {
        Some(t) => chars_of(t.as_str()),
        None => chars_of("No description"),
    };
    let s1 = remove_occurrences(&raw, &chars_of("<p>"));
    let s2 = remove_occurrences(&s1, &chars_of("</p>"));
    let s3 = remove_occurrences(&s2, &chars_of("<strong>"));
    let s4 = remove_occurrences(&s3, &chars_of("</strong>"));
    let s5 = remove_occurrences(&s4, &chars_of("<!-- raw HTML omitted -->"));
    truncate_chars(&s5, limit)
}

/// `text`, or `default` where there is none.
fn text_or(text: &Option<String>, default: &str) -> (s: String)
    ensures
        s@ == or_default(opt_view(*text), default@),
{
    match text {
        Some(t) => t.clone(),
        None => default.to_owned(),
    }
}

/// The chat message for an entry (see `spec_feed_format`).
pub fn feed_format(item: &FeedItem) -> (message: String)
    ensures
        message@ == spec_feed_format(item@),
{
    let title = text_or(&item.title, "No title");
    let pub_date = text_or(&item.pub_date, "No publication date");
    let description = string_of(&description_text(&item.description, MESSAGE_DESCRIPTION_LIMIT));
    let link = text_or(&item.link, "No link");
    let mut message = "**".to_owned();
    message.append(title.as_str());
    message.append("**\n*Published: ");
    message.append(pub_date.as_str());
    message.append("*\n");
    message.append(description.as_str());
    message.append("\n[");
    message.append(title.as_str());
    message.append("](");
    message.append(link.as_str());
    message.append(")");
    message
}

/// The embed for an entry: title, description, link, publication date and
/// thumbnail, as text.
pub struct FeedEmbed {
    pub title: String,
    pub description: String,
    pub url: String,
    pub published: String,
    pub thumbnail: Option<String>,
}

/// The description of an embed: the markup-free description cut to the
/// embed limit, or `No description available` where that is empty.
pub open spec fn embed_description(item: FeedItemView) -> Seq<char> {
    let d = shown_description(item, EMBED_DESCRIPTION_LIMIT as nat);
    if d.len() == 0 {
        "No description available"@
    } else {
        d
    }
}

/// Whether `embed` is the embed of the entry `item`.
pub open spec fn embed_is(embed: FeedEmbed, item: FeedItemView) -> bool {
    &&& embed.title@ == shown_title(item)
    &&& embed.description@ == embed_description(item)
    &&& embed.url@ == shown_link(item)
    &&& embed.published@ == shown_pub_date(item)
    &&& opt_view(embed.thumbnail) == item.thumbnail
}

/// The embed for an entry.
pub fn feed_embed(item: &FeedItem) -> (embed: FeedEmbed)
    ensures
        embed_is(embed, item@),
{
    let d = description_text(&item.description, EMBED_DESCRIPTION_LIMIT);
    let description = if d.len() == 0 {
        "No description available".to_owned()
    } else {
        string_of(&d)
    };
    let thumbnail = match &item.thumbnail {
        Some(t) => Some(t.clone()),
        None => None,
    };
    FeedEmbed {
        title: text_or(&item.title, "No title"),
        description,
        url: text_or(&item.link, "No link"),
        published: text_or(&item.pub_date, "No publication date"),
        thumbnail,
    }
}

/// The identifier of an entry that has no guid, taken at the time `now`
/// (seconds since the Unix epoch): `default-{now}`.
pub open spec fn default_entry_id(now: int) -> Seq<char> {
    "default-"@ + decimal(now)
}

/// The identifier of an entry at the time `now`: its guid, or the default
/// identifier for `now` where it has none.
pub open spec fn spec_entry_id_at(item: FeedItemView, now: int) -> Seq<char> {
    match item.guid {
        Some(g) => g,
        None => default_entry_id(now),
    }
}

/// The identifier of `item` at the time `now` (see `spec_entry_id_at`).
pub fn entry_id_at(item: &FeedItem, now: i64) -> (id: String)
    ensures
        id@ == spec_entry_id_at(item@, now as int),
{
    match &item.guid {
        Some(g) => g.clone(),
        None => {
            let mut id = "default-".to_owned();
            id.append(string_of(&decimal_i64(now)).as_str());
            id
        },
    }
}

/// The current time in whole seconds since the Unix epoch, read from
/// `chrono::Utc::now` and its `timestamp`. Nothing is claimed of the value:
/// it is the clock's.
#[verifier::external_body]
fn now_timestamp() -> i64 {
    chrono::Utc::now().timestamp()
}

/// The identifier of `item`: its guid, or, where it has none, `default-`
/// followed by the current time in seconds, which the clock decides.
pub fn entry_id(item: &FeedItem) -> (id: String)
    ensures
        item@.guid matches Some(g) ==> id@ == g,
        item@.guid is None ==> exists|now: i64| id@ == default_entry_id(now as int),
{
    match &item.guid {
        Some(g) => g.clone(),
        None => {
            let now = now_timestamp();
            let id = entry_id_at(item, now);
            assert(id@ == default_entry_id(now as int));
            id
        },
    }
}

} // verus!

verus! {

/// Stripping markup leaves a text that has no `<` as it is: only the tags
/// and the comment are removed, never ordinary text.
pub proof fn lemma_strip_markup_keeps_plain_text(s: Seq<char>)
    requires
        forall|i: int| 0 <= i < s.len() ==> s[i] != '<',
    ensures
        strip_markup(s) == s,
{
    reveal_strlit("<p>");
    reveal_strlit("</p>");
    reveal_strlit("<strong>");
    reveal_strlit("</strong>");
    reveal_strlit("<!-- raw HTML omitted -->");
    lemma_remove_all_keeps_text_without_pattern_start(s, "<p>"@);
    lemma_remove_all_keeps_text_without_pattern_start(s, "</p>"@);
    lemma_remove_all_keeps_text_without_pattern_start(s, "<strong>"@);
    lemma_remove_all_keeps_text_without_pattern_start(s, "</strong>"@);
    lemma_remove_all_keeps_text_without_pattern_start(s, "<!-- raw HTML omitted -->"@);
}

/// The description in a chat message has at most 2000 characters; that of an
/// embed has at most 2048 and is never empty.
pub proof fn lemma_description_limits(item: FeedItemView)
    ensures
        shown_description(item, MESSAGE_DESCRIPTION_LIMIT as nat).len() <= 2000,
        embed_description(item).len() <= 2048,
        embed_description(item).len() > 0,
{
    reveal_strlit("No description available");
    lemma_truncate_bounds(
        strip_markup(or_default(item.description, "No description"@)),
        MESSAGE_DESCRIPTION_LIMIT as nat,
    );
    lemma_truncate_bounds(
        strip_markup(or_default(item.description, "No description"@)),
        EMBED_DESCRIPTION_LIMIT as nat,
    );
}

/// The identifier of an entry with a guid is its guid, whatever the time; an
/// entry without one is identified by `default-` and the time.
pub proof fn lemma_entry_id_time_independent(item: FeedItemView, t1: int, t2: int)
    ensures
        item.guid is Some ==> spec_entry_id_at(item, t1) == spec_entry_id_at(item, t2),
        item.guid is None ==> spec_entry_id_at(item, t1) == "default-"@ + decimal(t1),
{
}

/// Whether `m` is one of the markup strings that descriptions lose.
pub open spec fn is_markup(m: Seq<char>) -> bool {
    ||| m == "<p>"@
    ||| m == "</p>"@
    ||| m == "<strong>"@
    ||| m == "</strong>"@
    ||| m == "<!-- raw HTML omitted -->"@
}

/// Whether `s` holds no `<`.
pub open spec fn no_angle(s: Seq<char>) -> bool {
    forall|i: int| 0 <= i < s.len() ==> s[i] != '<'
}

proof fn lemma_markup_facts(m: Seq<char>)
    requires
        is_markup(m),
    ensures
        m.len() >= 3,
        m[0] == '<',
        forall|i: int| 1 <= i < m.len() ==> m[i] != '<',
{
    reveal_strlit("<p>");
    reveal_strlit("</p>");
    reveal_strlit("<strong>");
    reveal_strlit("</strong>");
    reveal_strlit("<!-- raw HTML omitted -->");
}

/// One removal pass over `t + m + u`: the markup `m` goes where it is the
/// pattern, and the text stays as it is otherwise.
proof fn lemma_markup_pass(t: Seq<char>, m: Seq<char>, u: Seq<char>, pat: Seq<char>)
    requires
        no_angle(t),
        no_angle(u),
        is_markup(m),
        is_markup(pat),
    ensures
        remove_all(t + m + u, pat) == if m == pat {
            t + u
        } else {
            t + m + u
        },
{
    reveal_strlit("<p>");
    reveal_strlit("</p>");
    reveal_strlit("<strong>");
    reveal_strlit("</strong>");
    reveal_strlit("<!-- raw HTML omitted -->");
    lemma_markup_facts(m);
    lemma_markup_facts(pat);
    if m == pat {
        lemma_remove_all_removes_only_pattern(t, u, pat);
    } else {
        let k: int = if m[1] != pat[1] {
            1
        } else {
            2
        };
        assert(m[k] != pat[k]);
        lemma_remove_all_keeps_other_text(t, m, u, pat, k);
    }
}

/// A pass over text without `<` leaves it as it is.
proof fn lemma_plain_pass(s: Seq<char>, pat: Seq<char>)
    requires
        no_angle(s),
        is_markup(pat),
    ensures
        remove_all(s, pat) == s,
{
    lemma_markup_facts(pat);
    lemma_remove_all_keeps_text_without_pattern_start(s, pat);
}

/// Stripping removes the markup and only the markup: each of `<p>`, `</p>`,
/// `<strong>`, `</strong>` and `<!-- raw HTML omitted -->` standing between
/// texts `t` and `u` that hold no `<` leaves exactly `t + u`, so that the
/// characters around it, such as a newline after `</p>`, stay.
pub proof fn lemma_strip_markup_removes_only_markup(t: Seq<char>, m: Seq<char>, u: Seq<char>)
    requires
        no_angle(t),
        no_angle(u),
        is_markup(m),
    ensures
        strip_markup(t + m + u) == t + u,
{
    let tu = t + u;
    assert(no_angle(tu));
    let p1 = "<p>"@;
    let p2 = "</p>"@;
    let p3 = "<strong>"@;
    let p4 = "</strong>"@;
    let p5 = "<!-- raw HTML omitted -->"@;
    assert(is_markup(p1) && is_markup(p2) && is_markup(p3) && is_markup(p4) && is_markup(p5));
    let s0 = t + m + u;
    lemma_markup_pass(t, m, u, p1);
    let s1 = remove_all(s0, p1);
    if m == p1 {
        lemma_plain_pass(tu, p2);
        lemma_plain_pass(tu, p3);
        lemma_plain_pass(tu, p4);
        lemma_plain_pass(tu, p5);
    } else {
        lemma_markup_pass(t, m, u, p2);
        if m == p2 {
            lemma_plain_pass(tu, p3);
            lemma_plain_pass(tu, p4);
            lemma_plain_pass(tu, p5);
        } else {
            lemma_markup_pass(t, m, u, p3);
            if m == p3 {
                lemma_plain_pass(tu, p4);
                lemma_plain_pass(tu, p5);
            } else {
                lemma_markup_pass(t, m, u, p4);
                if m == p4 {
                    lemma_plain_pass(tu, p5);
                } else {
                    lemma_markup_pass(t, m, u, p5);
                }
            }
        }
    }
}

/// The chat message shows an entry's title, date, description and link, the
/// description losing its markup and nothing else: an entry whose description
/// is `t`, one markup string, then `u` (no `<` in `t` or `u`, at most 2000
/// characters in all) gives
/// `**{title}**\n*Published: {date}*\n{t}{u}\n[{title}]({link})`.
pub proof fn lemma_feed_format_shows_entry(
    item: FeedItemView,
    title: Seq<char>,
    date: Seq<char>,
    link: Seq<char>,
    t: Seq<char>,
    m: Seq<char>,
    u: Seq<char>,
)
    requires
        item.title == Some(title),
        item.pub_date == Some(date),
        item.link == Some(link),
        item.description == Some(t + m + u),
        no_angle(t),
        no_angle(u),
        is_markup(m),
        (t + u).len() <= 2000,
    ensures
        spec_feed_format(item) == "**"@ + title + "**\n*Published: "@ + date + "*\n"@ + (t + u)
            + "\n["@ + title + "]("@ + link + ")"@,
{
    lemma_strip_markup_removes_only_markup(t, m, u);
    lemma_truncate_bounds(t + u, 2000);
}

/// A description longer than 2000 characters and without markup is cut to its
/// first 2000 characters in the chat message.
pub proof fn lemma_feed_format_cuts_description(item: FeedItemView, d: Seq<char>)
    requires
        item.description == Some(d),
        no_angle(d),
        d.len() > 2000,
    ensures
        shown_description(item, MESSAGE_DESCRIPTION_LIMIT as nat) == d.take(2000),
{
    reveal_strlit("<p>");
    lemma_plain_pass(d, "<p>"@);
    lemma_plain_pass(d, "</p>"@);
    lemma_plain_pass(d, "<strong>"@);
    lemma_plain_pass(d, "</strong>"@);
    lemma_plain_pass(d, "<!-- raw HTML omitted -->"@);
}

/// The embed's description loses the same markup as the message's, and only
/// it: a description `t`, one markup string, then `u` (no `<` in `t` or `u`,
/// between 1 and 2048 characters in all) gives `t + u`; one that is only
/// markup gives `No description available`.
pub proof fn lemma_embed_description_shows_entry(
    item: FeedItemView,
    t: Seq<char>,
    m: Seq<char>,
    u: Seq<char>,
)
    requires
        item.description == Some(t + m + u),
        no_angle(t),
        no_angle(u),
        is_markup(m),
        (t + u).len() <= 2048,
    ensures
        (t + u).len() > 0 ==> embed_description(item) == t + u,
        (t + u).len() == 0 ==> embed_description(item) == "No description available"@,
{
    lemma_strip_markup_removes_only_markup(t, m, u);
    lemma_truncate_bounds(t + u, 2048);
}

/// Where the embed has a description of its own, it is the markup-free
/// description cut to 2048 characters, the same stripping as the message's.
pub proof fn lemma_embed_description_is_stripped(item: FeedItemView)
    ensures
        shown_description(item, EMBED_DESCRIPTION_LIMIT as nat).len() > 0 ==> embed_description(
            item,
        ) == truncate(strip_markup(or_default(item.description, "No description"@)), 2048),
{
}

} // verus!
