use basscoast_web::text::{
    contains, escape_quotes_of, int_to_text, is_whitespace, join_strings, parse_i64, same_text,
};

#[test]
fn integers_are_written_in_decimal() {
    assert_eq!(int_to_text(0), "0");
    assert_eq!(int_to_text(42), "42");
    assert_eq!(int_to_text(-7), "-7");
    assert_eq!(int_to_text(i64::MAX), i64::MAX.to_string());
    assert_eq!(int_to_text(i64::MIN), i64::MIN.to_string());
}

#[test]
fn integers_are_read_like_str_parse() {
    for text in [
        "0", "42", "-7", "+5", "007", "", "-", "+", "12a", " 1", "1 ", "--1", "+-1",
        "9223372036854775807", "9223372036854775808", "-9223372036854775808",
        "-9223372036854775809", "99999999999999999999999", "١٢",
    ] {
        assert_eq!(parse_i64(text), text.parse::<i64>().ok(), "reading {:?}", text);
    }
}

#[test]
fn written_integers_read_back() {
    for i in [0i64, 1, -1, 10, 123456789, i64::MAX, i64::MIN, -1000] {
        assert_eq!(parse_i64(&int_to_text(i)), Some(i));
    }
}

#[test]
fn substring_search() {
    assert!(contains("Scryfall API error: 404 Not Found", "404"));
    assert!(!contains("Scryfall API error: 40 4", "404"));
    assert!(contains("abc", ""));
    assert!(!contains("", "a"));
    assert!(contains("aaab", "aab"));
}

#[test]
fn quotes_are_escaped() {
    assert_eq!(escape_quotes_of(r#"say "hi""#), "say &quot;hi&quot;");
    assert_eq!(escape_quotes_of("plain"), "plain");
}

#[test]
fn whitespace_matches_std() {
    for c in ['\t', '\n', ' ', '\u{a0}', '\u{2003}', '\u{3000}', 'a', '_', '\u{200b}', '\u{180e}'] {
        assert_eq!(is_whitespace(c), c.is_whitespace(), "{:?}", c);
    }
}

#[test]
fn joining_and_comparing() {
    let parts = vec!["a".to_string(), "b".to_string(), "c".to_string()];
    assert_eq!(join_strings(&parts, ", "), "a, b, c");
    assert_eq!(join_strings(&Vec::new(), ", "), "");
    assert!(same_text("tags", "tags"));
    assert!(!same_text("tags", "tag"));
}
