use genshin_roles::json::{append_json_string, append_json_value, get_entry, get_i64, get_str, JsonValue};
use genshin_roles::text::{decimal_string, eq_ignore_ascii_case, parse_i64, str_contains};

#[test]
fn json_strings_escape_what_they_must() {
    let mut out = String::new();
    append_json_string(&mut out, "a\"b\\c\nd\u{1}é");
    assert_eq!(out, "\"a\\\"b\\\\c\\nd\\u0001é\"");
    let back: String = serde_json::from_str(&out).unwrap();
    assert_eq!(back, "a\"b\\c\nd\u{1}é");
}

#[test]
fn json_values_as_text() {
    let cases = [
        (JsonValue::Null, "null"),
        (JsonValue::Bool(true), "true"),
        (JsonValue::Bool(false), "false"),
        (JsonValue::Int(-42), "-42"),
        (JsonValue::Number("1.5".to_string()), "1.5"),
        (JsonValue::Str("x".to_string()), "\"x\""),
        (JsonValue::Composite("[1,2]".to_string()), "[1,2]"),
    ];
    for (v, text) in cases {
        let mut out = String::from(">");
        append_json_value(&mut out, &v);
        assert_eq!(out, format!(">{text}"));
    }
}

#[test]
fn object_lookups_take_the_first_entry() {
    let obj = vec![
        ("a".to_string(), JsonValue::Int(1)),
        ("b".to_string(), JsonValue::Str("t".to_string())),
        ("a".to_string(), JsonValue::Int(2)),
    ];
    assert_eq!(get_i64(&obj, "a"), Some(1));
    assert_eq!(get_i64(&obj, "b"), None);
    assert_eq!(get_str(&obj, "b"), Some("t"));
    assert!(get_entry(&obj, "c").is_none());
}

#[test]
fn integer_text() {
    assert_eq!(parse_i64("-9223372036854775808"), Some(i64::MIN));
    assert_eq!(parse_i64("9223372036854775808"), None);
    assert_eq!(parse_i64("+7"), Some(7));
    assert_eq!(parse_i64("-"), None);
    assert_eq!(parse_i64(""), None);
    assert_eq!(decimal_string(i64::MIN), "-9223372036854775808");
    assert_eq!(decimal_string(0), "0");
}

#[test]
fn text_comparisons() {
    assert!(eq_ignore_ascii_case("Asia", "ASIA"));
    assert!(!eq_ignore_ascii_case("é", "É"));
    assert!(str_contains("hello GR-1 world", "GR-1"));
    assert!(str_contains("abc", ""));
    assert!(!str_contains("ab", "abc"));
}
