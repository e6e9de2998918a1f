use dotnet_module::json::{parse_json, JsonValue};

fn object(members: Vec<(&str, JsonValue)>) -> JsonValue {
    JsonValue::Object(members.into_iter().map(|(key, value)| (key.to_string(), value)).collect())
}

fn string(text: &str) -> JsonValue {
    JsonValue::String(text.to_string())
}

#[test]
fn parses_nested_objects() {
    let document = parse_json("{\"sdk\":{\"version\":\"6.0.100\"}}").unwrap();
    assert_eq!(document, object(vec![("sdk", object(vec![("version", string("6.0.100"))]))]));
}

#[test]
fn parses_every_kind_of_value() {
    assert_eq!(parse_json("null"), Some(JsonValue::Null));
    assert_eq!(parse_json("true"), Some(JsonValue::Bool(true)));
    assert_eq!(parse_json("false"), Some(JsonValue::Bool(false)));
    assert_eq!(parse_json("17"), Some(JsonValue::Number(serde_json::Number::from(17))));
    assert_eq!(parse_json("-3"), Some(JsonValue::Number(serde_json::Number::from(-3))));
    assert_eq!(parse_json("\"a\\nb\""), Some(string("a\nb")));
    assert_eq!(parse_json("\"\\u00e9\""), Some(string("\u{e9}")));
    assert_eq!(
        parse_json(" [1, \"two\", [], {}] "),
        Some(JsonValue::Array(vec![
            JsonValue::Number(serde_json::Number::from(1)),
            string("two"),
            JsonValue::Array(vec![]),
            JsonValue::Object(vec![]),
        ]))
    );
}

#[test]
fn rejects_what_is_not_one_document() {
    assert_eq!(parse_json(""), None);
    assert_eq!(parse_json("   "), None);
    assert_eq!(parse_json("{"), None);
    assert_eq!(parse_json("{\"sdk\":}"), None);
    assert_eq!(parse_json("{'sdk': 1}"), None);
    assert_eq!(parse_json("{\"a\":1,}"), None);
    assert_eq!(parse_json("{} {}"), None);
    assert_eq!(parse_json("not json"), None);
    assert_eq!(parse_json("// comment\n{}"), None);
}

#[test]
fn every_member_of_a_parsed_object_can_be_found() {
    let document = parse_json("{\"b\": 1, \"a\": \"x\", \"c\": null}").unwrap();
    assert_eq!(document.get("a"), Some(&string("x")));
    assert_eq!(document.get("b"), Some(&JsonValue::Number(serde_json::Number::from(1))));
    assert_eq!(document.get("c"), Some(&JsonValue::Null));
    assert_eq!(document.get("d"), None);
    assert_eq!(document.get(""), None);
    match document {
        JsonValue::Object(members) => assert_eq!(members.len(), 3),
        _ => panic!("an object was parsed"),
    }
}

#[test]
fn a_repeated_key_is_one_member_of_a_parsed_object() {
    let document = parse_json("{\"a\": 1, \"a\": 2}").unwrap();
    assert_eq!(document.get("a"), Some(&JsonValue::Number(serde_json::Number::from(2))));
    match document {
        JsonValue::Object(members) => assert_eq!(members.len(), 1),
        _ => panic!("an object was parsed"),
    }
}

#[test]
fn get_returns_the_first_member_of_that_name() {
    let value = object(vec![("a", string("first")), ("b", string("other")), ("a", string("second"))]);
    assert_eq!(value.get("a"), Some(&string("first")));
    assert_eq!(value.get("b"), Some(&string("other")));
    assert_eq!(value.get("c"), None);
    assert_eq!(value.get("A"), None);
}

#[test]
fn get_finds_nothing_in_what_is_no_object() {
    assert_eq!(JsonValue::Null.get("a"), None);
    assert_eq!(JsonValue::Bool(true).get("a"), None);
    assert_eq!(string("a").get("a"), None);
    assert_eq!(JsonValue::Array(vec![string("a")]).get("a"), None);
    assert_eq!(JsonValue::Array(vec![object(vec![("a", string("x"))])]).get("a"), None);
    assert_eq!(object(vec![]).get("a"), None);
}

#[test]
fn as_str_is_the_text_of_a_string_only() {
    assert_eq!(string("6.0.100").as_str(), Some("6.0.100"));
    assert_eq!(string("").as_str(), Some(""));
    assert_eq!(JsonValue::Null.as_str(), None);
    assert_eq!(JsonValue::Bool(false).as_str(), None);
    assert_eq!(JsonValue::Number(serde_json::Number::from(6)).as_str(), None);
    assert_eq!(JsonValue::Array(vec![string("x")]).as_str(), None);
    assert_eq!(object(vec![("x", string("y"))]).as_str(), None);
}
