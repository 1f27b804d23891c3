use release_signatures::catalogue::first_missing;
use release_signatures::catalogue::SemanticVersion;
use release_signatures::files::classify_entry;
use release_signatures::files::has_errors;
use release_signatures::files::BadPattern;
use release_signatures::files::Entry;
use release_signatures::files::EXTENSION_PATTERN;

fn versions(texts: &[&str]) -> Vec<SemanticVersion> {
    texts.iter().map(|text| SemanticVersion::parse(text).unwrap()).collect()
}

#[test]
fn file_with_a_yaml_extension_is_read() {
    assert_eq!(EXTENSION_PATTERN, "ya+ml");
    assert_eq!(classify_entry(EXTENSION_PATTERN, Some("yaml")), Ok(Entry::Read));
    assert_eq!(classify_entry(EXTENSION_PATTERN, Some("yaaaml")), Ok(Entry::Read));
}

#[test]
fn extension_is_searched_for_the_pattern() {
    assert_eq!(classify_entry(EXTENSION_PATTERN, Some("xyamlx")), Ok(Entry::Read));
    assert_eq!(classify_entry(EXTENSION_PATTERN, Some("yaml~")), Ok(Entry::Read));
}

#[test]
fn file_with_another_extension_is_refused() {
    assert_eq!(classify_entry(EXTENSION_PATTERN, Some("yml")), Ok(Entry::InvalidExtension));
    assert_eq!(classify_entry(EXTENSION_PATTERN, Some("json")), Ok(Entry::InvalidExtension));
    assert_eq!(classify_entry(EXTENSION_PATTERN, Some("YAML")), Ok(Entry::InvalidExtension));
    assert_eq!(classify_entry(EXTENSION_PATTERN, Some("")), Ok(Entry::InvalidExtension));
}

#[test]
fn file_without_extension_is_refused() {
    assert_eq!(classify_entry(EXTENSION_PATTERN, None), Ok(Entry::NoExtension));
}

#[test]
fn pattern_that_is_no_expression_is_an_error() {
    assert_eq!(classify_entry("ya+(ml", Some("yaml")), Err(BadPattern));
    assert_eq!(classify_entry("ya+(ml", None), Ok(Entry::NoExtension));
}

#[test]
fn walk_fails_on_any_error() {
    assert!(!has_errors(0, 0, 0));
    assert!(has_errors(1, 0, 0));
    assert!(has_errors(0, 2, 0));
    assert!(has_errors(0, 0, 3));
    assert!(has_errors(4, 5, 6));
}

#[test]
fn first_version_without_image_is_found() {
    let available = versions(&["4.10.3", "4.10.4", "4.10.6"]);
    assert_eq!(first_missing(&versions(&["4.10.4", "4.10.3"]), &available), None);
    assert_eq!(first_missing(&versions(&["4.10.4", "4.10.5", "4.10.7"]), &available), Some(1));
    assert_eq!(first_missing(&versions(&["4.10.4-rc.1"]), &available), Some(0));
    assert_eq!(first_missing(&Vec::new(), &available), None);
    assert_eq!(first_missing(&versions(&["4.10.4"]), &Vec::new()), Some(0));
}
