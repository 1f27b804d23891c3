use release_signatures::attempt::AttemptError;
use release_signatures::catalogue::RunFailure;
use release_signatures::discovery::ReleaseFailure;

#[test]
fn attempt_errors_are_worded() {
    assert_eq!(AttemptError::Location.describe(), "No location for the signature");
    assert_eq!(
        AttemptError::Transport { url: "https://example.net/signature-1".to_string(), reason: "timed out".to_string() }
            .describe(),
        "Error fetching https://example.net/signature-1 - timed out"
    );
    assert_eq!(
        AttemptError::Status { url: "https://example.net/signature-1".to_string(), status: 404 }.describe(),
        "Error fetching https://example.net/signature-1 - 404"
    );
    assert_eq!(AttemptError::Parse.describe(), "Parsing message");
    assert_eq!(AttemptError::Untrusted.describe(), "No matching key found");
    assert_eq!(AttemptError::EmptyContent.describe(), "Empty message received");
    assert_eq!(AttemptError::Undecodable.describe(), "Deserializing message");
    assert_eq!(
        AttemptError::DigestMismatch { actual: "sha256:deadbeef".to_string() }.describe(),
        "Valid signature, but digest mismatches: sha256:deadbeef"
    );
}

#[test]
fn release_failures_are_worded() {
    assert_eq!(
        ReleaseFailure::NotConcrete { version: "4.10.3+amd64".to_string() }.describe(),
        "4.10.3+amd64: not a concrete release"
    );
    assert_eq!(
        ReleaseFailure::MissingDigest { version: "4.10.3+amd64".to_string(), payload: "quay.io/ocp".to_string() }
            .describe(),
        "4.10.3+amd64: could not parse payload 'quay.io/ocp'"
    );
}

#[test]
fn exhaustion_lists_version_payload_and_every_error() {
    let failure = ReleaseFailure::Exhausted {
        version: "4.10.3+amd64".to_string(),
        payload: "repo@sha256:ab".to_string(),
        errors: vec![
            AttemptError::Status { url: "https://example.net/s/sha256=ab/signature-1".to_string(), status: 404 },
            AttemptError::DigestMismatch { actual: "sha256:cd".to_string() },
        ],
    };
    assert_eq!(
        failure.describe(),
        "Failed to verify signature for 4.10.3+amd64 - repo@sha256:ab:\n    Error fetching https://example.net/s/sha256=ab/signature-1 - 404\n    Valid signature, but digest mismatches: sha256:cd"
    );
    let bare = ReleaseFailure::Exhausted {
        version: "1.0.0+x".to_string(),
        payload: "repo@sha256:ab".to_string(),
        errors: Vec::new(),
    };
    assert_eq!(bare.describe(), "Failed to verify signature for 1.0.0+x - repo@sha256:ab:");
}

#[test]
fn failed_run_lists_every_failing_release() {
    let failure = RunFailure {
        failures: vec![
            ReleaseFailure::NotConcrete { version: "4.10.3+amd64".to_string() },
            ReleaseFailure::Exhausted {
                version: "4.10.4+amd64".to_string(),
                payload: "repo@sha256:ab".to_string(),
                errors: vec![AttemptError::Untrusted],
            },
        ],
    };
    assert_eq!(
        failure.describe(),
        "Signature check errors:\n4.10.3+amd64: not a concrete release\nFailed to verify signature for 4.10.4+amd64 - repo@sha256:ab:\n    No matching key found"
    );
}
