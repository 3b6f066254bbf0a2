use agent_core::json::JsonValue;
use agent_core::json::has_key;
use agent_core::json::lookup;
use agent_core::json::parse_json;

fn chars(s: &str) -> Vec<char> {
    s.chars().collect()
}

fn parse(s: &str) -> Option<JsonValue> {
    parse_json(&chars(s))
}

#[test]
fn test_parse_scalars() {
    assert_eq!(parse("null"), Some(JsonValue::Null));
    assert_eq!(parse(" true "), Some(JsonValue::Boolean(true)));
    assert_eq!(parse("false"), Some(JsonValue::Boolean(false)));
    assert_eq!(parse("\"hi\""), Some(JsonValue::Text("hi".to_string())));
    assert_eq!(parse("42"), Some(JsonValue::Num("42".to_string())));
    assert_eq!(parse("-12.5e3"), Some(JsonValue::Num("-12.5e3".to_string())));
}

#[test]
fn test_parse_string_escapes() {
    assert_eq!(
        parse("\"a\\nb\\t\\\"c\\\\\""),
        Some(JsonValue::Text("a\nb\t\"c\\".to_string()))
    );
    assert_eq!(
        parse("\"snow: \\u2603\""),
        Some(JsonValue::Text("snow: \u{2603}".to_string()))
    );
    // Lone surrogate escapes are rejected.
    assert_eq!(parse("\"\\ud834\""), None);
    // Unknown escapes are rejected.
    assert_eq!(parse("\"\\q\""), None);
    // Unterminated strings are rejected.
    assert_eq!(parse("\"abc"), None);
}

#[test]
fn test_parse_collections() {
    let v = parse("[1, \"two\", [true], {}]").expect("array");
    match v {
        JsonValue::Arr(items) => {
            assert_eq!(items.len(), 4);
            assert_eq!(items[0], JsonValue::Num("1".to_string()));
            assert_eq!(items[1], JsonValue::Text("two".to_string()));
            assert_eq!(items[2], JsonValue::Arr(vec![JsonValue::Boolean(true)]));
            assert_eq!(items[3], JsonValue::Obj(Vec::new()));
        }
        other => panic!("expected array, got {:?}", other),
    }

    let obj = parse("{\"a\": 1, \"b\": {\"c\": null}}").expect("object");
    match obj {
        JsonValue::Obj(members) => {
            assert_eq!(members.len(), 2);
            assert!(has_key(&members, "a"));
            assert!(has_key(&members, "b"));
            assert!(!has_key(&members, "c"));
            assert_eq!(lookup(&members, "a"), Some(&JsonValue::Num("1".to_string())));
        }
        other => panic!("expected object, got {:?}", other),
    }
}

#[test]
fn test_parse_rejects_malformed_input() {
    assert_eq!(parse(""), None);
    assert_eq!(parse("{"), None);
    assert_eq!(parse("{\"a\": }"), None);
    assert_eq!(parse("[1,]"), None);
    assert_eq!(parse("01"), None);
    assert_eq!(parse("1 2"), None);
    assert_eq!(parse("{\"a\":1,\"a\":2}"), None);
    assert_eq!(parse("nul"), None);
}

#[test]
fn test_number_grammar() {
    assert_eq!(parse("0"), Some(JsonValue::Num("0".to_string())));
    assert_eq!(parse("-0.5"), Some(JsonValue::Num("-0.5".to_string())));
    assert_eq!(parse("1e10"), Some(JsonValue::Num("1e10".to_string())));
    assert_eq!(parse("1E+2"), Some(JsonValue::Num("1E+2".to_string())));
    assert_eq!(parse("1."), None);
    assert_eq!(parse("1e"), None);
    assert_eq!(parse("-"), None);
}
