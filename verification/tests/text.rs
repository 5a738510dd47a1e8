use subc_daemon::span::{Span, SPAN_LIMIT};
use subc_daemon::text::{
    bool_text, contains_char, contains_text, decimal_text, ends_with_char, join, precedes, same,
    same_option, same_pairs, same_texts, starts_with, trim, trim_end_char,
};
use subc_daemon::text_map::TextMap;

#[test]
fn texts_are_taken_apart_by_characters() {
    assert!(same("a\u{e9}", "a\u{e9}"));
    assert!(!same("a", "ab"));
    assert!(starts_with("fed:x", "fed:"));
    assert!(!starts_with("fed", "fed:"));
    assert!(ends_with_char("fed:", ':'));
    assert!(!ends_with_char("", ':'));
    assert!(contains_char("a.b", '.'));
    assert_eq!(trim_end_char("/data//", '/'), "/data");
    assert_eq!(trim_end_char("//", '/'), "");
    assert_eq!(trim("\u{2003}\t x y \n"), "x y");
    assert_eq!(trim(" "), "");
    let parts: Vec<String> = vec!["a".to_string(), "b".to_string()];
    assert_eq!(join(&parts, ", "), "a, b");
    assert_eq!(join(&Vec::new(), ", "), "");
    assert!(contains_text(&parts, "b"));
    assert!(!contains_text(&parts, "c"));
    assert!(same_texts(&parts, &parts));
    assert!(same_option(&None, &None));
    assert!(!same_option(&None, &Some("a".to_string())));
    let pair = vec![("k".to_string(), "v".to_string())];
    assert!(same_pairs(&pair, &pair));
    assert!(!same_pairs(&pair, &Vec::new()));
}

#[test]
fn numbers_and_flags_have_a_text() {
    assert_eq!(decimal_text(0), "0");
    assert_eq!(decimal_text(1203), "1203");
    assert_eq!(decimal_text(u64::MAX), "18446744073709551615");
    assert_eq!(bool_text(true), "true");
    assert_eq!(bool_text(false), "false");
}

#[test]
fn texts_stand_in_the_order_of_their_characters() {
    assert!(precedes("a", "b"));
    assert!(precedes("a", "ab"));
    assert!(precedes("", "a"));
    assert!(precedes("Z", "a"));
    assert!(!precedes("a", "a"));
    assert!(!precedes("b", "ab"));
    for (a, b) in [("mcp", "mcp2"), ("a-b", "a.b"), ("\u{e9}", "\u{10000}")] {
        assert_eq!(precedes(a, b), a < b);
    }
}

#[test]
fn a_map_is_walked_in_the_order_of_its_keys() {
    let mut map: TextMap<u8> = TextMap::new();
    map.insert("b", 1);
    map.insert("a", 2);
    map.insert("c", 3);
    map.insert("b", 4);
    assert_eq!(map.len(), 3);
    assert_eq!((map.key_at(0).as_str(), *map.value_at(0)), ("a", 2));
    assert_eq!(map.get("b"), Some(&4));
    assert_eq!(map.remove("a"), Some(2));
    assert_eq!(map.remove("a"), None);
    assert!(!map.contains_key("a"));
    assert_eq!(map.key_at(1), "c");
}

#[test]
fn a_span_keeps_its_length_to_the_nanosecond() {
    assert_eq!(Span::from_secs(2).as_nanos(), 2_000_000_000);
    assert_eq!(Span::from_millis(1500), Span::from_nanos(1_500_000_000));
    assert_eq!(Span::from_millis(1999).as_secs(), 1);
    assert_eq!(Span::from_nanos(1_999_999).as_millis(), 1);
    assert_eq!(Span::from_millis(u64::MAX).as_millis(), u64::MAX);
    assert_eq!(Span::from_nanos(SPAN_LIMIT - 1).as_secs(), u64::MAX);
    assert!(Span::zero().equals(&Span::from_millis(0)));
    assert_eq!(Span::from_millis(999).to_text(), "999ms");
    assert_eq!(Span::from_millis(1500).to_text(), "1.5s");
    assert_eq!(Span::from_secs(20).to_text(), "20s");
}
