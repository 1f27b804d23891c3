use release_signatures::config::Config;
use release_signatures::config::MalformedBase;
use release_signatures::config::DEFAULT_TIMEOUT_SECS;
use release_signatures::config::MAX_SIGNATURES;
use release_signatures::config::SIGNATURE_STORE;
use release_signatures::location::signature_url;

#[test]
fn standard_configuration_holds_the_published_settings() {
    let config = Config::standard().unwrap();
    assert_eq!(
        config.base_url.as_str(),
        "https://mirror.openshift.com/pub/openshift-v4/signatures/openshift/release/"
    );
    assert_eq!(SIGNATURE_STORE, config.base_url.as_str());
    assert_eq!(config.max_signatures, 10);
    assert_eq!(MAX_SIGNATURES, 10);
    assert_eq!(config.timeout_secs, 30);
    assert_eq!(DEFAULT_TIMEOUT_SECS, 30);
    assert_eq!(
        config.skip_list,
        vec![
            "4.1.0-rc.3+amd64",
            "4.1.0-rc.5+amd64",
            "4.1.0-rc.4+amd64",
            "4.1.0-rc.0+amd64",
            "4.1.0-rc.8+amd64",
            "4.1.37+amd64",
            "4.2.11+amd64",
            "4.3.0-rc.0+amd64",
            "4.6.0-fc.3+s390x",
        ]
    );
}

#[test]
fn configuration_keeps_what_it_is_given() {
    let config = Config::new("https://example.net/signatures/", vec!["1.0.0+x".to_string()], 4, 5).unwrap();
    assert_eq!(config.base_url.as_str(), "https://example.net/signatures/");
    assert_eq!(config.skip_list, vec!["1.0.0+x".to_string()]);
    assert_eq!(config.max_signatures, 4);
    assert_eq!(config.timeout_secs, 5);
}

#[test]
fn configuration_refuses_a_base_that_is_no_url() {
    assert_eq!(Config::new("not a url", Vec::new(), 10, 30).err(), Some(MalformedBase));
    assert_eq!(Config::new("", Vec::new(), 10, 30).err(), Some(MalformedBase));
    assert_eq!(Config::new("/relative/path/", Vec::new(), 10, 30).err(), Some(MalformedBase));
}

#[test]
fn location_is_base_then_digest_directory_then_slot_file() {
    let config = Config::standard().unwrap();
    assert_eq!(
        signature_url(&config, "sha256:deadbeef", 3),
        Some(
            "https://mirror.openshift.com/pub/openshift-v4/signatures/openshift/release/sha256=deadbeef/signature-3"
                .to_string()
        )
    );
    assert_eq!(
        signature_url(&config, "sha256:deadbeef", 1),
        Some(
            "https://mirror.openshift.com/pub/openshift-v4/signatures/openshift/release/sha256=deadbeef/signature-1"
                .to_string()
        )
    );
}

#[test]
fn location_writes_the_slot_in_decimal() {
    let config = Config::new("https://example.net/s/", Vec::new(), 100, 30).unwrap();
    assert_eq!(
        signature_url(&config, "sha256:ab", 9),
        Some("https://example.net/s/sha256=ab/signature-9".to_string())
    );
    assert_eq!(
        signature_url(&config, "sha256:ab", 10),
        Some("https://example.net/s/sha256=ab/signature-10".to_string())
    );
    assert_eq!(
        signature_url(&config, "sha256:ab", 0),
        Some("https://example.net/s/sha256=ab/signature-0".to_string())
    );
}

#[test]
fn location_replaces_every_colon_of_the_digest() {
    let config = Config::new("https://example.net/s/", Vec::new(), 10, 30).unwrap();
    assert_eq!(
        signature_url(&config, "a:b:c", 2),
        Some("https://example.net/s/a=b=c/signature-2".to_string())
    );
}

#[test]
fn location_is_the_same_for_the_same_inputs() {
    let config = Config::standard().unwrap();
    let first = signature_url(&config, "sha256:0123456789abcdef", 5);
    let second = signature_url(&config, "sha256:0123456789abcdef", 5);
    assert!(first.is_some());
    assert_eq!(first, second);
    assert_ne!(first, signature_url(&config, "sha256:0123456789abcdef", 6));
    assert_ne!(first, signature_url(&config, "sha256:0123456789abcdee", 5));
}

#[test]
fn location_joins_as_a_reference_against_the_base() {
    let config = Config::new("https://example.net/a/b", Vec::new(), 10, 30).unwrap();
    assert_eq!(
        signature_url(&config, "sha256:ab", 1),
        Some("https://example.net/a/sha256=ab/signature-1".to_string())
    );
}

#[test]
fn digest_that_joins_to_no_url_has_no_location() {
    let config = Config::standard().unwrap();
    assert_eq!(signature_url(&config, "//[", 1), None);
    assert_eq!(signature_url(&config, "//[", 9), None);
}
