use dotnet_module::json::JsonValue;
use dotnet_module::pinned::{get_pinned_sdk_version, pinned_version, ReadError};
use dotnet_module::version::Version;

fn pinned(text: &str) -> Option<String> {
    get_pinned_sdk_version(&Ok(text.to_string())).map(|version| version.as_str().to_string())
}

fn object(members: Vec<(&str, JsonValue)>) -> JsonValue {
    JsonValue::Object(members.into_iter().map(|(key, value)| (key.to_string(), value)).collect())
}

fn string(text: &str) -> JsonValue {
    JsonValue::String(text.to_string())
}

#[test]
fn a_well_formed_file_pins_its_version() {
    let version = get_pinned_sdk_version(&Ok("{\"sdk\":{\"version\":\"6.0.100\"}}".to_string()));
    assert_eq!(version, Version::new("6.0.100".to_string()));
    assert_eq!(version.unwrap().as_str(), "6.0.100");
}

#[test]
fn an_sdk_without_version_pins_nothing() {
    assert_eq!(pinned("{\"sdk\":{}}"), None);
}

#[test]
fn invalid_text_pins_nothing() {
    assert_eq!(pinned("{\"sdk\":{\"version\":\"6.0.100\""), None);
    assert_eq!(pinned("sdk: 6.0.100"), None);
    assert_eq!(pinned(""), None);
    assert_eq!(pinned("\u{0}"), None);
}

#[test]
fn an_unreadable_file_pins_nothing() {
    assert_eq!(get_pinned_sdk_version(&Err(ReadError)), None);
}

#[test]
fn the_version_is_taken_as_it_stands() {
    assert_eq!(pinned("{\"sdk\":{\"version\":\" 6.0.100 \\n\"}}"), Some(" 6.0.100 \n".to_string()));
    assert_eq!(pinned("{\"sdk\":{\"version\":\"latest\"}}"), Some("latest".to_string()));
    assert_eq!(
        pinned("{\"sdk\":{\"version\":\"7.0.100-rc.1\\u00e9\"}}"),
        Some("7.0.100-rc.1\u{e9}".to_string())
    );
}

#[test]
fn other_members_do_not_matter() {
    let text = "{\n  \"projects\": [\"src\"],\n  \"sdk\": {\n    \"rollForward\": \"latestMinor\",\n    \"version\": \"3.1.426\"\n  }\n}\n";
    assert_eq!(pinned(text), Some("3.1.426".to_string()));
}

#[test]
fn a_missing_key_pins_nothing() {
    assert_eq!(pinned("{}"), None);
    assert_eq!(pinned("{\"SDK\":{\"version\":\"6.0.100\"}}"), None);
    assert_eq!(pinned("{\"sdk\":{\"Version\":\"6.0.100\"}}"), None);
    assert_eq!(pinned("{\"version\":\"6.0.100\"}"), None);
    assert_eq!(pinned("{\"tools\":{\"sdk\":{\"version\":\"6.0.100\"}}}"), None);
}

#[test]
fn a_value_of_the_wrong_type_pins_nothing() {
    assert_eq!(pinned("[{\"sdk\":{\"version\":\"6.0.100\"}}]"), None);
    assert_eq!(pinned("\"sdk\""), None);
    assert_eq!(pinned("null"), None);
    assert_eq!(pinned("{\"sdk\":\"6.0.100\"}"), None);
    assert_eq!(pinned("{\"sdk\":[\"version\",\"6.0.100\"]}"), None);
    assert_eq!(pinned("{\"sdk\":null}"), None);
    assert_eq!(pinned("{\"sdk\":{\"version\":6}}"), None);
    assert_eq!(pinned("{\"sdk\":{\"version\":6.0}}"), None);
    assert_eq!(pinned("{\"sdk\":{\"version\":null}}"), None);
    assert_eq!(pinned("{\"sdk\":{\"version\":[\"6.0.100\"]}}"), None);
    assert_eq!(pinned("{\"sdk\":{\"version\":{\"version\":\"6.0.100\"}}}"), None);
}

#[test]
fn an_empty_version_pins_nothing() {
    assert_eq!(pinned("{\"sdk\":{\"version\":\"\"}}"), None);
}

#[test]
fn pinned_version_reads_a_document() {
    let document = object(vec![
        ("projects", JsonValue::Array(vec![])),
        ("sdk", object(vec![("version", string("8.0.100"))])),
    ]);
    assert_eq!(pinned_version(&document), Version::new("8.0.100".to_string()));
    assert_eq!(pinned_version(&object(vec![("sdk", object(vec![]))])), None);
    assert_eq!(pinned_version(&object(vec![("sdk", string("8.0.100"))])), None);
    assert_eq!(pinned_version(&JsonValue::Array(vec![])), None);
    assert_eq!(pinned_version(&object(vec![("sdk", object(vec![("version", string(""))]))])), None);
}

#[test]
fn pinned_version_reads_the_first_member_of_a_name() {
    let document = object(vec![
        ("sdk", object(vec![("version", string("1.0.0")), ("version", string("2.0.0"))])),
        ("sdk", object(vec![("version", string("3.0.0"))])),
    ]);
    assert_eq!(pinned_version(&document), Version::new("1.0.0".to_string()));
}
