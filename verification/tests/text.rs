use waku::key_map::KeyMap;
use waku::text::{
    concat3, contains, contains_all, decimal_text, join, parse_decimal, split, split_once,
    split_words, starts_with, strip_prefix, to_ascii_lower, trim,
};
use waku::text_set::TextSet;

#[test]
fn white_space_is_trimmed_as_std_does() {
    for text in ["", "  ", " a b ", "\u{a0}x\u{3000}", "\u{200b}x", "\r\n\ty\u{85}"] {
        assert_eq!(trim(text), text.trim());
        assert_eq!(split_words(text), text.split_whitespace().collect::<Vec<_>>());
    }
}

#[test]
fn letters_are_lowered_as_std_does() {
    for text in ["ABC äÖ Ω", "already", "1-Z_"] {
        assert_eq!(to_ascii_lower(text), text.to_ascii_lowercase());
    }
}

#[test]
fn texts_are_searched_and_split_as_std_does() {
    for (text, needle) in [("abcabd", "abd"), ("aab", "ab"), ("", ""), ("x", ""), ("ab", "abc")] {
        assert_eq!(contains(text, needle), text.contains(needle));
        assert_eq!(starts_with(text, needle), text.starts_with(needle));
        assert_eq!(strip_prefix(text, needle).as_deref(), text.strip_prefix(needle));
    }
    for text in ["", ",", "a,b", "a,,b,", "a:b:c"] {
        assert_eq!(split(text, ','), text.split(',').collect::<Vec<_>>());
        let sides = split_once(text, ':');
        assert_eq!(
            sides.as_ref().map(|(a, b)| (a.as_str(), b.as_str())),
            text.split_once(':')
        );
    }
    assert!(contains_all("red green", &vec!["gre".to_string(), "red".to_string()]));
    assert!(!contains_all("red green", &vec!["blue".to_string()]));
    assert_eq!(join(&["a".to_string(), "b".to_string()], ", "), "a, b");
    assert_eq!(concat3("ä", "·", "z"), "ä·z");
}

#[test]
fn numbers_are_written_and_read_as_std_does() {
    for n in [0u64, 7, 10, 99, 1_000, u64::MAX] {
        assert_eq!(decimal_text(n), n.to_string());
        assert_eq!(parse_decimal(&n.to_string(), u64::MAX), Some(n));
    }
    for text in ["", "+", "-1", "1 ", "٣", "+5", "007", "18446744073709551616", "1e3"] {
        assert_eq!(parse_decimal(text, u64::MAX), text.parse::<u64>().ok());
        assert_eq!(parse_decimal(text, 65535), text.parse::<u16>().ok().map(u64::from));
    }
}

#[test]
fn maps_and_sets_of_texts() {
    let mut map: KeyMap<String, u8> = KeyMap::new();
    map.insert("a".to_string(), 1);
    map.insert("a".to_string(), 2);
    map.insert("b".to_string(), 3);
    assert_eq!(map.get(&"a".to_string()), Some(&2));
    assert_eq!(map.remove(&"a".to_string()), Some(2));
    assert!(!map.contains_key(&"a".to_string()));
    map.clear();
    assert!(map.is_empty());
    let mut set = TextSet::new();
    assert!(set.insert("x".to_string()));
    assert!(!set.insert("x".to_string()));
    assert!(set.contains("x"));
    assert!(set.remove("x"));
    assert!(!set.remove("x"));
}
