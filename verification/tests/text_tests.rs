use gram::text::{i64_to_string, join, parse_i64, replace, shorten, str_eq, strip_circumfix};

#[test]
fn shorten_negative_limit_keeps_text() {
    assert_eq!(shorten(-1, "hello world"), "hello world");
}

#[test]
fn shorten_cuts_and_appends_dots() {
    assert_eq!(shorten(5, "hello world"), "hello...");
    assert_eq!(shorten(0, "abc"), "...");
}

#[test]
fn shorten_keeps_short_text() {
    assert_eq!(shorten(11, "hello world"), "hello world");
    assert_eq!(shorten(3, ""), "");
}

#[test]
fn shorten_counts_characters_not_bytes() {
    assert_eq!(shorten(2, "äöü"), "äö...");
    assert_eq!(shorten(3, "äöü"), "äöü");
}

#[test]
fn shorten_is_idempotent() {
    let once = shorten(4, "abcdefgh");
    assert_eq!(shorten(4, &once), once);
}

#[test]
fn decimal_formatting() {
    assert_eq!(i64_to_string(0), "0");
    assert_eq!(i64_to_string(42), "42");
    assert_eq!(i64_to_string(-1001234567890), "-1001234567890");
    assert_eq!(i64_to_string(i64::MIN), "-9223372036854775808");
    assert_eq!(i64_to_string(i64::MAX), "9223372036854775807");
}

#[test]
fn decimal_parsing() {
    assert_eq!(parse_i64("42"), Some(42));
    assert_eq!(parse_i64("+7"), Some(7));
    assert_eq!(parse_i64("-0"), Some(0));
    assert_eq!(parse_i64("007"), Some(7));
    assert_eq!(parse_i64("-9223372036854775808"), Some(i64::MIN));
    assert_eq!(parse_i64("9223372036854775807"), Some(i64::MAX));
    assert_eq!(parse_i64("9223372036854775808"), None);
    assert_eq!(parse_i64("-9223372036854775809"), None);
    assert_eq!(parse_i64(""), None);
    assert_eq!(parse_i64("-"), None);
    assert_eq!(parse_i64("+"), None);
    assert_eq!(parse_i64("1a"), None);
    assert_eq!(parse_i64(" 1"), None);
    assert_eq!(parse_i64("bob"), None);
}

#[test]
fn decimal_roundtrip_values() {
    for n in [0i64, 1, -1, 99, -100, 1234567890123, i64::MIN, i64::MAX] {
        assert_eq!(parse_i64(&i64_to_string(n)), Some(n));
        assert_eq!(parse_i64(&n.to_string()), n.to_string().parse::<i64>().ok());
    }
}

#[test]
fn replace_matches_std() {
    for (s, p, r) in [
        ("aaa", "aa", "b"),
        ("{{x}}{{x}}", "{{x}}", "y"),
        ("no placeholder", "{{x}}", "y"),
        ("ababab", "ab", ""),
        ("", "a", "b"),
        ("a{{x}", "{{x}}", "y"),
    ] {
        assert_eq!(replace(s, p, r), s.replace(p, r));
    }
}

#[test]
fn strip_circumfix_quotes() {
    assert_eq!(strip_circumfix("\"hi\"", '"', '"'), Some("hi".to_string()));
    assert_eq!(strip_circumfix("\"\"", '"', '"'), Some("".to_string()));
    assert_eq!(strip_circumfix("\"", '"', '"'), None);
    assert_eq!(strip_circumfix("hi\"", '"', '"'), None);
    assert_eq!(strip_circumfix("\"hi", '"', '"'), None);
}

#[test]
fn join_with_spaces() {
    let words = vec!["hello".to_string(), "big".to_string(), "world".to_string()];
    assert_eq!(join(&words, " "), "hello big world");
    assert_eq!(join(&vec![], " "), "");
    assert_eq!(join(&vec!["one".to_string()], " "), "one");
}

#[test]
fn string_equality() {
    assert!(str_eq("abc", "abc"));
    assert!(!str_eq("abc", "abd"));
    assert!(!str_eq("abc", "ab"));
}
