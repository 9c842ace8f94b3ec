use wormhole_rss::{feed_read, FeedError};

const DOC: &str = r#"<?xml version="1.0"?>
<rss version="2.0">
<channel>
<title>Status</title>
<link>https://example.org/</link>
<description>Feed</description>
<item>
<title>Second</title>
<description>&lt;p&gt;Two&lt;/p&gt;</description>
<link>https://example.org/2</link>
<guid>id-2</guid>
<pubDate>Tue, 02 Jan 2024 00:00:00 +0000</pubDate>
<enclosure url="https://example.org/2.png" length="10" type="image/png"/>
</item>
<item>
<title>First</title>
</item>
</channel>
</rss>"#;

#[test]
fn read_valid_channel() {
    let items = feed_read(DOC.as_bytes()).unwrap();
    assert_eq!(items.len(), 2);
    let a = &items[0];
    assert_eq!(a.title.as_deref(), Some("Second"));
    assert_eq!(a.description.as_deref(), Some("<p>Two</p>"));
    assert_eq!(a.link.as_deref(), Some("https://example.org/2"));
    assert_eq!(a.guid.as_deref(), Some("id-2"));
    assert_eq!(a.pub_date.as_deref(), Some("Tue, 02 Jan 2024 00:00:00 +0000"));
    assert_eq!(a.thumbnail.as_deref(), Some("https://example.org/2.png"));
    let b = &items[1];
    assert_eq!(b.title.as_deref(), Some("First"));
    assert_eq!(b.description, None);
    assert_eq!(b.guid, None);
    assert_eq!(b.thumbnail, None);
    assert_eq!(
        wormhole_rss::feed_format(a),
        "**Second**\n*Published: Tue, 02 Jan 2024 00:00:00 +0000*\nTwo\n[Second](https://example.org/2)"
    );
}

#[test]
fn read_rejects_non_rss() {
    assert!(matches!(feed_read(b"<html></html>"), Err(FeedError::Rss(_))));
    assert!(matches!(feed_read(b""), Err(FeedError::Rss(_))));
}

#[test]
fn read_rejects_invalid_channel() {
    let bad = DOC.replace("<link>https://example.org/</link>", "<link>not a url</link>");
    assert!(matches!(feed_read(bad.as_bytes()), Err(FeedError::Validation(_))));
    let bad_date = DOC.replace("Tue, 02 Jan 2024 00:00:00 +0000", "yesterday");
    assert!(matches!(feed_read(bad_date.as_bytes()), Err(FeedError::Validation(_))));
}

#[test]
fn feed_error_from_rss_error() {
    let e: FeedError = rss::Error::Eof.into();
    assert!(matches!(e, FeedError::Rss(rss::Error::Eof)));
}

#[test]
fn feed_error_message() {
    let e = FeedError::Rss(rss::Error::Eof);
    assert_eq!(
        e.message(),
        "RSS error: reached end of input without finding a complete channel"
    );
    let v = match feed_read(
        DOC.replace("<link>https://example.org/</link>", "<link>not a url</link>").as_bytes(),
    ) {
        Err(e) => e,
        Ok(_) => panic!("expected a validation error"),
    };
    let inner = match &v {
        FeedError::Validation(inner) => inner.to_string(),
        _ => panic!("expected a validation error"),
    };
    assert_eq!(v.message(), format!("Validation error: {inner}"));
}

#[test]
fn feed_error_from_chat_error() {
    let e: FeedError = serenity::Error::Other("no channel").into();
    assert!(matches!(e, FeedError::Serenity(_)));
    assert_eq!(e.message(), "Serenity error: no channel");
}

#[test]
fn feed_error_from_http_error() {
    let rt = tokio::runtime::Builder::new_current_thread().enable_all().build().unwrap();
    let err = rt.block_on(reqwest::get("not a url")).unwrap_err();
    let text = err.to_string();
    let e: FeedError = err.into();
    assert!(matches!(e, FeedError::Reqwest(_)));
    assert_eq!(e.message(), format!("Reqwest error: {text}"));
}
