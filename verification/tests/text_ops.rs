use webview_bridge::json::{params_json_object, selectors_json};
use webview_bridge::clock::{add_hours_to_secs, chrono_add_hours, format_iso8601, parse_u64};
use webview_bridge::strops::{join_str, replace_str, trim_end_char_str, trim_start_char_str, trim_str};
use webview_bridge::text::{escape_quotes_str, u64_to_string};

#[test]
fn trimming() {
    assert_eq!(trim_str("  a b \t\n"), "a b");
    assert_eq!(trim_str("\u{3000}x\u{3000}"), "x");
    assert_eq!(trim_str("   "), "");
    assert_eq!(trim_end_char_str("http://h///", '/'), "http://h");
    assert_eq!(trim_start_char_str("..example.com", '.'), "example.com");
}

#[test]
fn replacing_is_left_to_right_and_non_overlapping() {
    assert_eq!(replace_str("aaaa", "aa", "b"), "bb");
    assert_eq!(replace_str("aaa", "aa", "b"), "ba");
    assert_eq!(replace_str("http://0.0.0.0:1", "://0.0.0.0", "://127.0.0.1"), "http://127.0.0.1:1");
    assert_eq!(replace_str("none", "x", "y"), "none");
}

#[test]
fn joining() {
    let parts = vec!["a".to_string(), "b".to_string(), "c".to_string()];
    assert_eq!(join_str(&parts, ", "), "a, b, c");
    assert_eq!(join_str(&parts[..1], ", "), "a");
    assert_eq!(join_str(&[], ", "), "");
}

#[test]
fn numbers_read_back() {
    for n in [0u64, 7, 10, 12345, u64::MAX] {
        assert_eq!(parse_u64(&u64_to_string(n)), Some(n));
    }
    assert_eq!(parse_u64("+42"), Some(42));
    assert_eq!(parse_u64("4x"), None);
    assert_eq!(parse_u64(""), None);
    assert_eq!(parse_u64("18446744073709551616"), None);
}

#[test]
fn escaping_quotes_distributes_over_concatenation() {
    let a = "say \"hi\"";
    let b = " and \"bye\"";
    assert_eq!(escape_quotes_str(&format!("{}{}", a, b)), format!("{}{}", escape_quotes_str(a), escape_quotes_str(b)));
    assert_eq!(escape_quotes_str("\""), "\\\"");
}

#[test]
fn iso_stamps_have_calendar_shape() {
    let s = format_iso8601(0);
    assert!(s.ends_with('Z'));
    assert!(s.contains('T'));
}

#[test]
fn iso_stamps_follow_the_calendar() {
    assert_eq!(format_iso8601(0), "1970-01-01T00:00:00Z");
    assert_eq!(format_iso8601(1770292800), "2026-02-05T12:00:00Z");
    assert_eq!(format_iso8601(951782400), "2000-02-29T00:00:00Z");
    assert_eq!(format_iso8601(4102444799), "2099-12-31T23:59:59Z");
    assert_eq!(format_iso8601(253402300799), "9999-12-31T23:59:59Z");
    assert_eq!(add_hours_to_secs(1770292800, 168), "2026-02-12T12:00:00Z");
    assert_eq!(chrono_add_hours("2026-02-05T12:00:00Z", 168), "2026-02-12T12:00:00Z");
    assert_eq!(chrono_add_hours("2024-02-28T00:00:00Z", 24), "2024-02-29T00:00:00Z");
}

#[test]
fn empty_pattern_replacement_interleaves() {
    assert_eq!(replace_str("abc", "", "x"), "xaxbxcx");
    assert_eq!(replace_str("", "", "x"), "x");
}

#[test]
fn leap_second_stamp_is_accepted() {
    assert_eq!(chrono_add_hours("2016-12-31T23:59:60Z", 1), "2017-01-01T00:59:59Z");
}

#[test]
fn json_strings_are_escaped_as_serde_json_does() {
    let items = vec!["a\"b".to_string(), "c\n\\".to_string(), "\u{1}".to_string()];
    assert_eq!(selectors_json(&items), "[\"a\\\"b\",\"c\\n\\\\\",\"\\u0001\"]");
    assert_eq!(selectors_json(&[]), "[]");
    let params = vec![("k\t".to_string(), "1".to_string())];
    assert_eq!(params_json_object(&params), "{\"k\\t\":1}");
}
