//! JSON values, texts and timestamps.

use vim_mcp::clock::iso8601;
use vim_mcp::clock::now_iso8601;
use vim_mcp::json::with_entry;
use vim_mcp::json::Json;
use vim_mcp::text;

fn parse(text: &str) -> Json {
    Json::from_value(serde_json::from_str(text).unwrap())
}

#[test]
fn values_cross_and_come_back() {
    for text in [
        "null",
        "true",
        "false",
        "0",
        "-1",
        "9223372036854775807",
        "-9223372036854775808",
        "18446744073709551615",
        "1.5",
        "-0.0",
        "1e300",
        "\"\"",
        "\"a \\\"quote\\\" and \\u00e9\"",
        "[]",
        "[1,[2,[3,null]],{}]",
        "{}",
        "{\"a\":{\"b\":[true]},\"c\":1.25}",
    ] {
        let value: serde_json::Value = serde_json::from_str(text).unwrap();
        let json = Json::from_value(value.clone());
        assert_eq!(json.to_value(), value);
        assert_eq!(json.clone().to_value(), value);
        assert_eq!(json.to_compact(), value.to_string());
        assert_eq!(json.to_pretty(), serde_json::to_string_pretty(&value).unwrap());
        assert!(json.same(&json.clone()));
    }
}

#[test]
fn texts_of_values() {
    let json = parse("{\"b\": [1, 2.50], \"a\": \"x\\ny\"}");
    assert_eq!(json.to_compact(), "{\"a\":\"x\\ny\",\"b\":[1,2.5]}");
    assert_eq!(
        json.to_pretty(),
        "{\n  \"a\": \"x\\ny\",\n  \"b\": [\n    1,\n    2.5\n  ]\n}"
    );
    assert_eq!(Json::empty_object().to_pretty(), "{}");
}

#[test]
fn later_entry_counts() {
    let entries = with_entry(Vec::new(), "k", Json::Int(1));
    let entries = with_entry(entries, "other", Json::Null);
    let entries = with_entry(entries, "k", Json::Int(2));
    let json = Json::Object(entries);
    assert_eq!(json.get("k").unwrap().as_i64(), Some(2));
    assert!(json.get("none").is_none());
    assert_eq!(json.to_compact(), "{\"k\":2,\"other\":null}");
}

#[test]
fn members_are_read_by_kind() {
    let json = parse("{\"s\":\"t\",\"b\":true,\"n\":7,\"a\":[1],\"o\":{\"i\":\"in\"}}");
    assert_eq!(json.str_or("s", "d"), "t");
    assert_eq!(json.str_or("n", "d"), "d");
    assert_eq!(json.str_or("x", "d"), "d");
    assert!(json.bool_or("b", false));
    assert!(!json.bool_or("s", false));
    assert!(json.bool_or("x", true));
    assert_eq!(json.get("a").unwrap().as_array().unwrap().len(), 1);
    assert!(json.get("o").unwrap().as_array().is_none());
    assert_eq!(json.get2("o", "i").unwrap().as_str(), Some("in"));
    assert!(json.get2("s", "i").is_none());
    assert!(parse("[]").get("s").is_none());
}

#[test]
fn integers_are_read_within_their_range() {
    assert_eq!(parse("-9223372036854775808").as_i64(), Some(i64::MIN));
    assert_eq!(parse("9223372036854775807").as_i64(), Some(i64::MAX));
    assert_eq!(parse("9223372036854775808").as_i64(), None);
    assert_eq!(parse("1.0").as_i64(), None);
    assert_eq!(parse("\"1\"").as_i64(), None);
}

#[test]
fn equality_goes_through_the_whole_value() {
    assert!(parse("{\"a\":[1,{\"b\":0.0}]}").same(&parse("{\"a\":[1,{\"b\":-0.0}]}")));
    assert!(!parse("[1,2]").same(&parse("[2,1]")));
    assert!(!parse("[1]").same(&parse("[1,1]")));
    assert!(!parse("1").same(&parse("1.0")));
    assert!(!parse("{\"a\":1}").same(&parse("{\"b\":1}")));
    assert!(!parse("null").same(&parse("false")));
    assert!(!parse("1.5").same(&parse("2.5")));
}

#[test]
fn strings_are_compared_searched_and_cut() {
    assert!(text::eq("h\u{e9}", "h\u{e9}"));
    assert!(!text::eq("he", "h\u{e9}"));
    assert!(!text::eq("a", "ab"));
    assert!(text::begins("split x", "split "));
    assert!(!text::begins("sp", "split"));
    assert!(text::contains("abcabd", "abd"));
    assert!(text::contains("a", ""));
    assert!(!text::contains("ab", "abc"));
    assert!(!text::contains("aab", "ba"));
    assert_eq!(text::trimmed("\u{3000} a b\u{9}\n"), "a b");
    assert_eq!(text::trimmed(" \u{1680}\u{202f} "), "");
    assert_eq!(text::split_words("  one\u{2009}two \u{205f}three"), ["one", "two", "three"]);
    assert_eq!(text::word_at("one two", 1), "two");
    assert_eq!(text::word_at("one two", 2), "");
    assert_eq!(text::lowered("AbC 1Z["), "abc 1z[");
    assert_eq!(text::lowered("\u{130}X"), "i\u{307}x");
}

#[test]
fn numbers_and_lists_are_written() {
    assert_eq!(text::number_text(0), "0");
    assert_eq!(text::number_text(1090), "1090");
    assert_eq!(text::number_text(u64::MAX), "18446744073709551615");
    assert_eq!(text::signed_text(-7), "-7");
    assert_eq!(text::signed_text(i64::MIN), "-9223372036854775808");
    assert_eq!(text::signed_text(i64::MAX), "9223372036854775807");
    let list = vec!["a".to_string(), "".to_string(), "c".to_string()];
    assert_eq!(text::join(&list, ", "), "a, , c");
    assert_eq!(text::join(&Vec::new(), ", "), "");
}

#[test]
fn timestamps_follow_the_calendar() {
    assert_eq!(iso8601(None), "1970-01-01T00:00:00Z");
    assert_eq!(iso8601(Some(0)), "1970-01-01T00:00:00Z");
    assert_eq!(iso8601(Some(59)), "1970-01-01T00:00:59Z");
    assert_eq!(iso8601(Some(86399)), "1970-01-01T23:59:59Z");
    assert_eq!(iso8601(Some(951_782_400)), "2000-02-29T00:00:00Z");
    assert_eq!(iso8601(Some(951_868_800)), "2000-03-01T00:00:00Z");
    assert_eq!(iso8601(Some(1_000_000_000)), "2001-09-09T01:46:40Z");
    assert_eq!(iso8601(Some(1_709_251_199)), "2024-02-29T23:59:59Z");
    assert_eq!(iso8601(Some(1_735_689_599)), "2024-12-31T23:59:59Z");
    assert_eq!(iso8601(Some(4_107_542_399)), "2100-02-28T23:59:59Z");
    assert_eq!(iso8601(Some(4_107_542_400)), "2100-03-01T00:00:00Z");
    assert_eq!(iso8601(Some(253_402_300_799)), "9999-12-31T23:59:59Z");
    assert_eq!(iso8601(Some(253_402_300_800)), "+10000-01-01T00:00:00Z");
    assert!(iso8601(Some(u64::MAX)).ends_with("Z"));
}

#[test]
fn present_moment_is_a_timestamp() {
    let now = now_iso8601();
    assert_eq!(now.len(), 20);
    assert!(now.as_str() > "2024-01-01T00:00:00Z");
    assert!(now.as_str() < "9999-12-31T23:59:59Z");
    assert_eq!(&now[4..5], "-");
    assert_eq!(&now[10..11], "T");
    assert_eq!(&now[19..20], "Z");
}
