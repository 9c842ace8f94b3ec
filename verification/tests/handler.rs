use wormhole_rss::{log_error, log_info, FeedItem, Handler, LogLevel, StrMap};

fn entry(guid: Option<&str>, title: &str) -> FeedItem {
    FeedItem {
        title: Some(title.to_string()),
        description: Some("d".to_string()),
        link: Some("l".to_string()),
        pub_date: Some("p".to_string()),
        guid: guid.map(String::from),
        thumbnail: None,
    }
}

fn handler(feeds: &[(&str, u64)]) -> Handler {
    let mut map = StrMap::new();
    for (url, id) in feeds {
        map.insert(url.to_string(), *id);
    }
    Handler { last_entry_ids: StrMap::new(), feeds: map }
}

#[test]
fn str_map_insert_get_and_order() {
    let mut m: StrMap<String> = StrMap::new();
    assert_eq!(m.get("a"), None);
    m.insert("a".into(), "1".into());
    m.insert("b".into(), "2".into());
    m.insert("a".into(), "3".into());
    assert_eq!(m.len(), 2);
    assert_eq!(m.get("a"), Some(&"3".to_string()));
    assert_eq!(m.get("b"), Some(&"2".to_string()));
    assert_eq!(m.key_at(0), "a");
    assert_eq!(m.value_at(0), "3");
    assert_eq!(m.key_at(1), "b");
}

#[test]
fn rss_command_answers_in_first_feed_channel() {
    let h = handler(&[("u1", 5), ("u2", 6)]);
    assert_eq!(h.rss_command("!rss"), Some((5, "Checking RSS feed...".to_string())));
    assert_eq!(h.rss_command("!rss "), None);
    assert_eq!(h.rss_command("hello"), None);
    assert_eq!(handler(&[]).rss_command("!rss"), Some((0, "Checking RSS feed...".to_string())));
}

#[test]
fn new_entry_is_posted_once() {
    let mut h = handler(&[("u1", 5)]);
    let items = vec![entry(Some("g1"), "First"), entry(Some("g0"), "Older")];
    let post = h.feed_post_at("u1", &items, 100).expect("new entry");
    assert_eq!(post.entry_id, "g1");
    assert_eq!(post.message, "**First**\n*Published: p*\nd\n[First](l)");
    assert_eq!(post.embed.title, "First");
    h.record_entry("u1".to_string(), post.entry_id);
    assert!(h.feed_post_at("u1", &items, 200).is_none());
    assert!(h.feed_post("u1", &items).is_none());
    // Another feed is decided on its own.
    assert!(h.feed_post_at("u2", &items, 200).is_some());
    // A newer first entry is posted.
    let newer = vec![entry(Some("g2"), "Second")];
    assert_eq!(h.feed_post_at("u1", &newer, 300).unwrap().entry_id, "g2");
}

#[test]
fn empty_feed_posts_nothing() {
    let h = handler(&[("u1", 5)]);
    assert!(h.feed_post_at("u1", &Vec::new(), 1).is_none());
    assert!(h.feed_post("u1", &Vec::new()).is_none());
}

#[test]
fn entry_without_guid_is_posted_again_later() {
    let mut h = handler(&[("u1", 5)]);
    let items = vec![entry(None, "NoGuid")];
    let post = h.feed_post_at("u1", &items, 10).unwrap();
    assert_eq!(post.entry_id, "default-10");
    h.record_entry("u1".to_string(), post.entry_id);
    assert!(h.feed_post_at("u1", &items, 10).is_none());
    assert!(h.feed_post_at("u1", &items, 11).is_some());
}

#[test]
fn is_new_entry_checks_last_id() {
    let mut h = handler(&[]);
    assert!(h.is_new_entry("u", &"x".to_string()));
    h.record_entry("u".into(), "x".into());
    assert!(!h.is_new_entry("u", &"x".to_string()));
    assert!(h.is_new_entry("u", &"y".to_string()));
    assert!(h.is_new_entry("v", &"x".to_string()));
}

#[test]
fn handler_clone_keeps_state() {
    let mut h = handler(&[("u1", 5), ("u2", 6)]);
    h.record_entry("u1".into(), "g".into());
    let c = h.clone();
    assert_eq!(c.feeds.len(), 2);
    assert_eq!(c.feeds.key_at(1), "u2");
    assert_eq!(*c.feeds.value_at(1), 6);
    assert_eq!(c.last_entry_ids.get("u1"), Some(&"g".to_string()));
}

#[test]
fn log_records() {
    let r = log_info("hello");
    assert_eq!(r.level, LogLevel::Info);
    assert_eq!(r.message, "hello");
    let e = log_error("bad");
    assert_eq!(e.level, LogLevel::Error);
    assert_eq!(e.message, "bad");
}
