use kaffe::stamp::{parse_day, Stamp, MAX_SECOND, MIN_SECOND};
use kaffe::text::{
    contains, decimal_text, none_if_empty, parse_u16, parse_u32, parse_u8, same_text, split_on,
};

#[test]
fn none_if_empty_keeps_text() {
    assert_eq!(none_if_empty(""), None);
    assert_eq!(none_if_empty("Kenya"), Some("Kenya".to_string()));
    assert_eq!(none_if_empty(" "), Some(" ".to_string()));
}

#[test]
fn split_on_cuts_at_every_separator() {
    assert_eq!(split_on("abyssinia;typica", ';'), vec!["abyssinia", "typica"]);
    assert_eq!(split_on("", ';'), vec![""]);
    assert_eq!(split_on(";", ';'), vec!["", ""]);
    assert_eq!(split_on("lemon;;ginger;", ';'), vec!["lemon", "", "ginger", ""]);
    assert_eq!(split_on("geisha", ';'), vec!["geisha"]);
}

#[test]
fn split_then_join_gives_the_text_back() {
    for s in ["", ";", "a;b;c", "lemon;red fruit;ginger", ";;x;"] {
        let pieces = split_on(s, ';');
        assert!(pieces.iter().all(|p| !p.contains(';')));
        assert_eq!(pieces.join(";"), s);
    }
}

#[test]
fn decimal_text_renders_like_display() {
    assert_eq!(decimal_text(0), "0");
    assert_eq!(decimal_text(7), "7");
    assert_eq!(decimal_text(1234), "1234");
    assert_eq!(decimal_text(u64::MAX), u64::MAX.to_string());
}

#[test]
fn decimal_text_reads_back() {
    for n in [0u32, 9, 10, 99, 100, 65535, 4_294_967_295] {
        assert_eq!(parse_u32(&decimal_text(n as u64)), Some(n));
    }
}

#[test]
fn parse_unsigned_matches_std() {
    for s in ["42", "+7", "-1", "", "+", "65536", "65535", " 1", "00012", "1_000", "0", "+0"] {
        assert_eq!(parse_u16(s), s.parse::<u16>().ok(), "{:?}", s);
        assert_eq!(parse_u8(s), s.parse::<u8>().ok(), "{:?}", s);
        assert_eq!(parse_u32(s), s.parse::<u32>().ok(), "{:?}", s);
    }
    assert_eq!(parse_u8("256"), None);
    assert_eq!(parse_u8("255"), Some(255));
    assert_eq!(parse_u32("4294967295"), Some(4_294_967_295));
    assert_eq!(parse_u32("4294967296"), None);
    assert_eq!(parse_u32("99999999999999999999999"), None);
}

#[test]
fn contains_finds_substrings() {
    assert!(contains("ethiopia", "hio"));
    assert!(contains("ethiopia", ""));
    assert!(contains("", ""));
    assert!(!contains("ab", "abc"));
    assert!(!contains("kenya", "ky"));
    assert!(contains("kenya", "kenya"));
}

#[test]
fn same_text_compares_characters() {
    assert!(same_text("blend", "blend"));
    assert!(!same_text("blend", "Blend"));
    assert!(!same_text("blend", "blends"));
    assert!(same_text("", ""));
}

#[test]
fn stamp_accepts_only_normalized_pairs() {
    assert!(Stamp::new(0, 0).is_some());
    assert!(Stamp::new(5, 123_456_789).is_some());
    assert!(Stamp::new(-5, -123_456_789).is_some());
    assert!(Stamp::new(1, -1).is_none());
    assert!(Stamp::new(-1, 1).is_none());
    assert!(Stamp::new(0, 1_000_000_000).is_none());
    assert!(Stamp::new(MIN_SECOND, -1).is_none());
    assert!(Stamp::new(MIN_SECOND, 0).is_some());
    assert!(Stamp::new(MIN_SECOND, 1).is_none());
    assert!(Stamp::new(MAX_SECOND, 999_999_999).is_some());
    assert!(Stamp::new(MAX_SECOND + 1, 0).is_none());
    assert!(Stamp::new(MIN_SECOND - 1, 0).is_none());
}

#[test]
fn stamp_limits_are_jiffs() {
    assert_eq!(MIN_SECOND, jiff::Timestamp::MIN.as_second());
    assert_eq!(MAX_SECOND, jiff::Timestamp::MAX.as_second());
}

#[test]
fn stamp_renders_as_jiff_prints() {
    let s = Stamp::new(123_456_789, 0).unwrap();
    assert_eq!(s.to_text(), "1973-11-29T21:33:09Z");
    assert_eq!(Stamp::epoch().to_text(), "1970-01-01T00:00:00Z");
}

#[test]
fn stamp_parses_as_jiff_reads() {
    let s = Stamp::parse("2024-01-02T00:00:00Z").unwrap();
    assert_eq!(s.second(), 1_704_153_600);
    assert_eq!(s.nanosecond(), 0);
    assert_eq!(s.to_text(), "2024-01-02T00:00:00Z");
    assert!(Stamp::parse("2024-01-02").is_none());
    assert!(Stamp::parse("").is_none());
}

#[test]
fn parse_day_reads_midnight_utc() {
    let s = parse_day("2024-01-02").unwrap();
    assert_eq!((s.second(), s.nanosecond()), (1_704_153_600, 0));
    assert!(parse_day("yesterday").is_none());
    assert!(parse_day("").is_none());
}

#[test]
fn stamp_now_is_after_the_epoch() {
    assert!(Stamp::now().second() > 0);
}

#[test]
fn split_gives_one_more_piece_than_separators() {
    for s in ["", ";", "a;b", ";;", "abc", "a;;b;"] {
        assert_eq!(split_on(s, ';').len(), s.matches(';').count() + 1);
    }
}
