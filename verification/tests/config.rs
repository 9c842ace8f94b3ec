use wormhole_rss::{load_feeds_from, parse_u64, ConfigError, ParseIntErrorKind};
use std::num::IntErrorKind;

fn std_kind(s: &str) -> Result<u64, ParseIntErrorKind> {
    s.parse::<u64>().map_err(|e| match e.kind() {
        IntErrorKind::Empty => ParseIntErrorKind::Empty,
        IntErrorKind::InvalidDigit => ParseIntErrorKind::InvalidDigit,
        IntErrorKind::PosOverflow => ParseIntErrorKind::PosOverflow,
        other => panic!("unexpected kind {other:?}"),
    })
}

#[test]
fn parse_u64_agrees_with_std() {
    let cases = [
        "0", "7", "123", "+7", "0007", "", "+", "-", "-5", "+-5", "12a", " 1", "1 ",
        "18446744073709551615", "18446744073709551616", "99999999999999999999x",
        "1x99999999999999999999", "é", "١٢", "++1",
    ];
    for c in cases {
        assert_eq!(parse_u64(c), std_kind(c), "input {c:?}");
    }
}

#[test]
fn parse_u64_values() {
    assert_eq!(parse_u64("123456789012345"), Ok(123456789012345));
    assert_eq!(parse_u64(""), Err(ParseIntErrorKind::Empty));
    assert_eq!(parse_u64("-"), Err(ParseIntErrorKind::InvalidDigit));
    assert_eq!(parse_u64("18446744073709551616"), Err(ParseIntErrorKind::PosOverflow));
}

#[test]
fn parse_u64_reads_back_decimal() {
    for n in [0u64, 9, 10, 99, 100, 4294967296, u64::MAX - 1, u64::MAX] {
        assert_eq!(parse_u64(&n.to_string()), Ok(n));
    }
}

#[test]
fn load_feeds_all_set() {
    let feeds = load_feeds_from(&Some("11".into()), &Some("22".into()), &Some("+33".into())).unwrap();
    assert_eq!(feeds.len(), 3);
    assert_eq!(feeds.key_at(0), "https://status.robertsspaceindustries.com/index.xml");
    assert_eq!(*feeds.value_at(0), 11);
    assert_eq!(feeds.key_at(1), "https://archlinux.org/feeds/packages/");
    assert_eq!(*feeds.value_at(1), 22);
    assert_eq!(feeds.key_at(2), "https://www.nasa.gov/centers-and-facilities/jpl/feed/");
    assert_eq!(*feeds.value_at(2), 33);
    assert_eq!(feeds.get("https://archlinux.org/feeds/packages/"), Some(&22));
}

#[test]
fn load_feeds_missing_variable() {
    let r = load_feeds_from(&Some("11".into()), &None, &Some("33".into()));
    let e = r.err().unwrap();
    assert_eq!(e, ConfigError::MissingVar { index: 2 });
    assert_eq!(e.message(), "Expected CHANNEL_ID_2 in .secrets");
}

#[test]
fn load_feeds_first_error_wins() {
    let r = load_feeds_from(&Some("abc".into()), &None, &None);
    let e = r.err().unwrap();
    assert_eq!(
        e,
        ConfigError::InvalidChannelId { index: 1, kind: ParseIntErrorKind::InvalidDigit }
    );
    let std_err = "abc".parse::<u64>().unwrap_err();
    assert_eq!(e.message(), format!("Failed to parse CHANNEL_ID_1: {std_err}"));
}

#[test]
fn config_error_messages_match_std() {
    for (input, index) in [("", 3u8), ("99999999999999999999", 2u8), ("x", 1u8)] {
        let vars: Vec<Option<String>> = (1..=3u8)
            .map(|i| if i == index { Some(input.to_string()) } else { Some("1".to_string()) })
            .collect();
        let e = load_feeds_from(&vars[0], &vars[1], &vars[2]).err().unwrap();
        let std_err = input.parse::<u64>().unwrap_err();
        assert_eq!(e.message(), format!("Failed to parse CHANNEL_ID_{index}: {std_err}"));
    }
}
