use spark_connect_proxy::text::{
    contains, decimal_text, equals, is_whitespace, replace_all, signed_decimal_text, split,
    split_once, starts_with, trim, trim_end,
};
use spark_connect_proxy::text_map::TextMap;

#[test]
fn whitespace_is_that_of_the_standard_library() {
    for code in 0..=0x10ffffu32 {
        if let Some(c) = char::from_u32(code) {
            assert_eq!(is_whitespace(c), c.is_whitespace(), "{code:x}");
        }
    }
}

#[test]
fn searching_and_cutting_agree_with_the_standard_library() {
    let texts = ["", " ", "a", "a b", " a,b ,,c ", "://", "s3://x", "\u{2003}é\u{85}", "ab:c:d", ",,"];
    for text in texts {
        assert_eq!(trim(text), text.trim());
        assert_eq!(trim_end(text), text.trim_end());
        assert_eq!(
            split(text, ','),
            text.split(',').map(str::to_string).collect::<Vec<String>>()
        );
        assert_eq!(
            split_once(text, ':'),
            text.split_once(':').map(|(a, b)| (a.to_string(), b.to_string()))
        );
        for pattern in ["a", "://", " ", "b ", "é", "longer than any of them"] {
            assert_eq!(contains(text, pattern), text.contains(pattern));
            assert_eq!(starts_with(text, pattern), text.starts_with(pattern));
            assert_eq!(replace_all(text, pattern, "<>"), text.replace(pattern, "<>"));
        }
        assert!(contains(text, ""));
        assert!(starts_with(text, ""));
        for other in texts {
            assert_eq!(equals(text, other), text == other);
        }
    }
    assert_eq!(replace_all("aaa", "aa", "b"), "ba");
}

#[test]
fn split_text_can_be_joined_again() {
    for text in ["", ",", "a,b", ",a,,b,"] {
        assert_eq!(split(text, ',').join(","), text);
    }
    assert_eq!(split("", ','), vec![""]);
}

#[test]
fn numbers_are_written_in_decimal() {
    for n in [0u64, 7, 10, 3600, 8100, u64::MAX] {
        assert_eq!(decimal_text(n), n.to_string());
    }
    for i in [0i32, -1, 42, i32::MIN, i32::MAX] {
        assert_eq!(signed_decimal_text(i), i.to_string());
    }
}

#[test]
fn maps_hold_one_value_under_each_name() {
    let mut map: TextMap<u8> = TextMap::new();
    map.insert("a".to_string(), 1);
    map.insert("b".to_string(), 2);
    map.insert("a".to_string(), 3);
    assert_eq!(map.len(), 2);
    assert_eq!(map.get("a"), Some(&3));
    assert!(map.contains_key("b"));
    assert_eq!(map.get("c"), None);

    let mut other: TextMap<u8> = TextMap::new();
    other.insert("b".to_string(), 4);
    other.insert("c".to_string(), 5);
    map.extend(other);
    assert_eq!(map.get("b"), Some(&4));
    assert_eq!(map.remove("b"), Some(4));
    assert_eq!(map.remove("b"), None);
    assert_eq!(map.len(), 2);

    let doubled = TextMap::from_entries(vec![
        ("x".to_string(), 1u8),
        ("x".to_string(), 2),
    ]);
    assert_eq!(doubled.len(), 1);
    assert_eq!(doubled.get("x"), Some(&2));
}
