use wormhole_rss::{entry_id, feed_embed, feed_format, FeedItem};
use wormhole_rss::item::entry_id_at;

fn item(
    title: Option<&str>,
    description: Option<&str>,
    link: Option<&str>,
    pub_date: Option<&str>,
    guid: Option<&str>,
    thumbnail: Option<&str>,
) -> FeedItem {
    FeedItem {
        title: title.map(String::from),
        description: description.map(String::from),
        link: link.map(String::from),
        pub_date: pub_date.map(String::from),
        guid: guid.map(String::from),
        thumbnail: thumbnail.map(String::from),
    }
}

#[test]
fn format_full_entry() {
    let it = item(
        Some("Outage"),
        Some("<p>Servers are <strong>down</strong>.</p>"),
        Some("https://example.org/a"),
        Some("Mon, 01 Jan 2024 00:00:00 +0000"),
        Some("id-1"),
        None,
    );
    assert_eq!(
        feed_format(&it),
        "**Outage**\n*Published: Mon, 01 Jan 2024 00:00:00 +0000*\nServers are down.\n[Outage](https://example.org/a)"
    );
}

#[test]
fn format_missing_fields_use_defaults() {
    let it = item(None, None, None, None, None, None);
    assert_eq!(
        feed_format(&it),
        "**No title**\n*Published: No publication date*\nNo description\n[No title](No link)"
    );
}

#[test]
fn format_removes_comment_marker() {
    let it = item(Some("T"), Some("a<!-- raw HTML omitted -->b"), Some("L"), Some("D"), None, None);
    assert_eq!(feed_format(&it), "**T**\n*Published: D*\nab\n[T](L)");
}

#[test]
fn format_removal_is_one_pass_per_tag() {
    // Removing `</p>` after `<p>` can leave a `<p>` behind, as chained replaces do.
    let it = item(Some("T"), Some("<</p>p>"), Some("L"), Some("D"), None, None);
    assert_eq!(feed_format(&it), "**T**\n*Published: D*\n<p>\n[T](L)");
}

#[test]
fn format_plain_text_unchanged() {
    let it = item(Some("T"), Some("a > b & c"), Some("L"), Some("D"), None, None);
    assert_eq!(feed_format(&it), "**T**\n*Published: D*\na > b & c\n[T](L)");
}

#[test]
fn format_truncates_description_to_2000_chars() {
    let long: String = "é".repeat(2100);
    let it = item(Some("T"), Some(&long), Some("L"), Some("D"), None, None);
    let expected = format!("**T**\n*Published: D*\n{}\n[T](L)", "é".repeat(2000));
    assert_eq!(feed_format(&it), expected);
}

#[test]
fn format_truncates_after_stripping() {
    let long = format!("<p>{}</p>", "x".repeat(2000));
    let it = item(Some("T"), Some(&long), Some("L"), Some("D"), None, None);
    let expected = format!("**T**\n*Published: D*\n{}\n[T](L)", "x".repeat(2000));
    assert_eq!(feed_format(&it), expected);
}

#[test]
fn format_matches_chained_replace() {
    let raw = "<p>a</p><strong>b</strong><p>c<!-- raw HTML omitted --></p>";
    let it = item(Some("T"), Some(raw), Some("L"), Some("D"), None, None);
    let desc: String = raw
        .replace("<p>", "")
        .replace("</p>", "")
        .replace("<strong>", "")
        .replace("</strong>", "")
        .replace("<!-- raw HTML omitted -->", "")
        .chars()
        .take(2000)
        .collect();
    assert_eq!(feed_format(&it), format!("**T**\n*Published: D*\n{desc}\n[T](L)"));
}

#[test]
fn embed_fields() {
    let it = item(
        Some("Title"),
        Some("<p>Body</p>"),
        Some("https://l"),
        Some("date"),
        None,
        Some("https://img/x.png"),
    );
    let e = feed_embed(&it);
    assert_eq!(e.title, "Title");
    assert_eq!(e.description, "Body");
    assert_eq!(e.url, "https://l");
    assert_eq!(e.published, "date");
    assert_eq!(e.thumbnail, Some("https://img/x.png".to_string()));
}

#[test]
fn embed_defaults_and_empty_description() {
    let e = feed_embed(&item(None, Some("<p></p>"), None, None, None, None));
    assert_eq!(e.title, "No title");
    assert_eq!(e.description, "No description available");
    assert_eq!(e.url, "No link");
    assert_eq!(e.published, "No publication date");
    assert_eq!(e.thumbnail, None);
    let e2 = feed_embed(&item(None, None, None, None, None, None));
    assert_eq!(e2.description, "No description");
}

#[test]
fn embed_truncates_to_2048_chars() {
    let long = "y".repeat(3000);
    let e = feed_embed(&item(None, Some(&long), None, None, None, None));
    assert_eq!(e.description, "y".repeat(2048));
}

#[test]
fn entry_id_prefers_guid() {
    let it = item(None, None, None, None, Some("guid-42"), None);
    assert_eq!(entry_id_at(&it, 123), "guid-42");
    assert_eq!(entry_id(&it), "guid-42");
}

#[test]
fn entry_id_default_uses_time() {
    let it = item(None, None, None, None, None, None);
    assert_eq!(entry_id_at(&it, 1700000000), "default-1700000000");
    assert_eq!(entry_id_at(&it, 0), "default-0");
    assert_eq!(entry_id_at(&it, -5), "default--5");
    assert_eq!(entry_id_at(&it, i64::MIN), format!("default-{}", i64::MIN));
    assert_eq!(entry_id_at(&it, i64::MAX), format!("default-{}", i64::MAX));
}

#[test]
fn entry_id_default_reads_clock() {
    let it = item(None, None, None, None, None, None);
    let before = chrono::Utc::now().timestamp();
    let id = entry_id(&it);
    let after = chrono::Utc::now().timestamp();
    let t: i64 = id.strip_prefix("default-").expect("prefix").parse().expect("number");
    assert!(before <= t && t <= after);
}
