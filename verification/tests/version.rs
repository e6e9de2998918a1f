use dotnet_module::version::Version;

#[test]
fn a_version_holds_its_text_unchanged() {
    assert_eq!(Version::new("6.0.100".to_string()).unwrap().as_str(), "6.0.100");
    assert_eq!(Version::new(" 6.0.100\n".to_string()).unwrap().as_str(), " 6.0.100\n");
    assert_eq!(Version::new("v".to_string()).unwrap().as_str(), "v");
    assert_eq!(Version::new(" ".to_string()).unwrap().as_str(), " ");
}

#[test]
fn there_is_no_empty_version() {
    assert!(Version::new(String::new()).is_none());
}

#[test]
fn versions_are_equal_where_their_texts_are() {
    assert_eq!(Version::new("1.2.3".to_string()), Version::new("1.2.3".to_string()));
    assert_ne!(Version::new("1.2.3".to_string()), Version::new("1.2.4".to_string()));
}

#[test]
fn a_version_derefs_to_its_text() {
    let version = Version::new("6.0.100".to_string()).unwrap();
    assert_eq!(*version, "6.0.100".to_string());
    assert_eq!(version.len(), 7);
    assert!(version.starts_with("6."));
}
