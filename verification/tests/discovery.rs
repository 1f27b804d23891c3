use release_signatures::attempt::AttemptError;
use release_signatures::config::Config;
use release_signatures::discovery::Discovery;
use release_signatures::discovery::Progress;
use release_signatures::discovery::ReleaseFailure;
use release_signatures::fetch::FetchResponse;
use release_signatures::keyring::load_public_keys;
use release_signatures::keyring::Keyring;
use release_signatures::release::AbstractRelease;
use release_signatures::release::ConcreteRelease;
use release_signatures::release::Release;

fn concrete(version: &str, payload: &str) -> Release {
    Release::Concrete(ConcreteRelease { version: version.to_string(), payload: payload.to_string() })
}

fn store(max_signatures: u64) -> Config {
    Config::new("https://example.net/s/", Vec::new(), max_signatures, 30).unwrap()
}

fn refusal(url: &str) -> AttemptError {
    AttemptError::Status { url: url.to_string(), status: 404 }
}

#[test]
fn search_starts_at_slot_one() {
    let config = store(10);
    let keyring = Keyring::new();
    let release = concrete("4.10.3+amd64", "repo@sha256:ab");
    match Discovery::begin(&config, &keyring, &release) {
        Progress::Fetch(discovery) => {
            assert_eq!(discovery.slot(), 1);
            assert_eq!(discovery.url(), "https://example.net/s/sha256=ab/signature-1");
            assert_eq!(discovery.digest(), "sha256:ab");
        }
        Progress::Done(result) => panic!("search ended at once: {:?}", result),
    }
}

#[test]
fn search_for_an_abstract_release_fails_at_once() {
    let config = store(10);
    let keyring = Keyring::new();
    let release = Release::Abstract(AbstractRelease { version: "4.10.3+amd64".to_string() });
    match Discovery::begin(&config, &keyring, &release) {
        Progress::Fetch(_) => panic!("a candidate was asked for"),
        Progress::Done(result) => assert_eq!(
            result,
            Err(ReleaseFailure::NotConcrete { version: "4.10.3+amd64".to_string() })
        ),
    }
}

#[test]
fn search_for_a_payload_without_digest_fails_at_once() {
    let config = store(10);
    let keyring = Keyring::new();
    let release = concrete("4.10.3+amd64", "quay.io/ocp-release");
    match Discovery::begin(&config, &keyring, &release) {
        Progress::Fetch(_) => panic!("a candidate was asked for"),
        Progress::Done(result) => assert_eq!(
            result,
            Err(ReleaseFailure::MissingDigest {
                version: "4.10.3+amd64".to_string(),
                payload: "quay.io/ocp-release".to_string(),
            })
        ),
    }
}

#[test]
fn success_at_slot_three_ends_the_search_after_three_fetches() {
    for max_signatures in [4u64, 10, 1000] {
        let config = store(max_signatures);
        let keyring = Keyring::new();
        let release = concrete("4.10.3+amd64", "repo@sha256:ab");
        let mut progress = Discovery::begin(&config, &keyring, &release);
        let mut fetches = 0;
        let mut verifications = 0;
        let result = loop {
            match progress {
                Progress::Fetch(discovery) => {
                    fetches += 1;
                    assert_eq!(discovery.slot(), fetches);
                    let outcome = if discovery.slot() == 3 {
                        verifications += 1;
                        Ok(())
                    } else {
                        Err(refusal(discovery.url()))
                    };
                    progress = discovery.record(outcome);
                }
                Progress::Done(result) => break result,
            }
        };
        assert_eq!(result, Ok(()));
        assert_eq!(fetches, 3);
        assert_eq!(verifications, 1);
    }
}

#[test]
fn refusal_at_every_slot_exhausts_the_search() {
    let config = store(10);
    let keyring = Keyring::new();
    let release = concrete("4.10.3+amd64", "repo@sha256:ab");
    let mut progress = Discovery::begin(&config, &keyring, &release);
    let mut fetched = Vec::new();
    let result = loop {
        match progress {
            Progress::Fetch(discovery) => {
                fetched.push(discovery.url().to_string());
                progress = discovery.resume(FetchResponse::Answered { status: 404, body: Vec::new() });
            }
            Progress::Done(result) => break result,
        }
    };
    let expected: Vec<String> =
        (1..10).map(|slot| format!("https://example.net/s/sha256=ab/signature-{}", slot)).collect();
    assert_eq!(fetched, expected);
    match result {
        Err(ReleaseFailure::Exhausted { version, payload, errors }) => {
            assert_eq!(version, "4.10.3+amd64");
            assert_eq!(payload, "repo@sha256:ab");
            assert_eq!(errors.len(), 9);
            let listed: Vec<AttemptError> = expected.iter().map(|url| refusal(url)).collect();
            assert_eq!(errors, listed);
        }
        other => panic!("search did not end exhausted: {:?}", other),
    }
}

#[test]
fn exhaustion_keeps_the_errors_in_the_order_of_the_slots() {
    let config = store(4);
    let keyring = Keyring::new();
    let release = concrete("1.2.3+x", "repo@sha256:ab");
    let outcomes = vec![
        AttemptError::Parse,
        AttemptError::DigestMismatch { actual: "sha256:cd".to_string() },
        AttemptError::Untrusted,
    ];
    let mut progress = Discovery::begin(&config, &keyring, &release);
    let mut next = 0;
    let result = loop {
        match progress {
            Progress::Fetch(discovery) => {
                progress = discovery.record(Err(outcomes[next].clone()));
                next += 1;
            }
            Progress::Done(result) => break result,
        }
    };
    assert_eq!(next, 3);
    assert_eq!(
        result,
        Err(ReleaseFailure::Exhausted {
            version: "1.2.3+x".to_string(),
            payload: "repo@sha256:ab".to_string(),
            errors: outcomes,
        })
    );
}

#[test]
fn search_without_slots_is_exhausted_at_once() {
    for max_signatures in [0u64, 1] {
        let config = store(max_signatures);
        let keyring = Keyring::new();
        let release = concrete("1.2.3+x", "repo@sha256:ab");
        match Discovery::begin(&config, &keyring, &release) {
            Progress::Fetch(_) => panic!("a candidate was asked for"),
            Progress::Done(result) => assert_eq!(
                result,
                Err(ReleaseFailure::Exhausted {
                    version: "1.2.3+x".to_string(),
                    payload: "repo@sha256:ab".to_string(),
                    errors: Vec::new(),
                })
            ),
        }
    }
}

#[test]
fn failed_request_is_recorded_and_the_next_slot_tried() {
    let config = store(3);
    let keyring = Keyring::new();
    let release = concrete("1.2.3+x", "repo@sha256:ab");
    let first = match Discovery::begin(&config, &keyring, &release) {
        Progress::Fetch(discovery) => discovery,
        Progress::Done(result) => panic!("search ended at once: {:?}", result),
    };
    let second = match first.resume(FetchResponse::Failed { reason: "timed out".to_string() }) {
        Progress::Fetch(discovery) => discovery,
        Progress::Done(result) => panic!("search ended after one slot: {:?}", result),
    };
    assert_eq!(second.slot(), 2);
    assert_eq!(second.url(), "https://example.net/s/sha256=ab/signature-2");
    match second.resume(FetchResponse::Answered { status: 200, body: b"no signature".to_vec() }) {
        Progress::Fetch(_) => panic!("a slot beyond the bound was asked for"),
        Progress::Done(result) => assert_eq!(
            result,
            Err(ReleaseFailure::Exhausted {
                version: "1.2.3+x".to_string(),
                payload: "repo@sha256:ab".to_string(),
                errors: vec![
                    AttemptError::Transport {
                        url: "https://example.net/s/sha256=ab/signature-1".to_string(),
                        reason: "timed out".to_string(),
                    },
                    AttemptError::Parse,
                ],
            })
        ),
    }
}

#[test]
fn empty_list_of_key_files_gives_an_empty_keyring() {
    let keyring = load_public_keys(&Vec::new()).unwrap();
    assert_eq!(keyring.len(), 0);
}

#[test]
fn slots_without_location_are_recorded_and_never_fetched() {
    let config = store(10);
    let keyring = Keyring::new();
    let release = concrete("1.2.3+x", "repo@//[");
    match Discovery::begin(&config, &keyring, &release) {
        Progress::Fetch(discovery) => panic!("a candidate was asked for at {}", discovery.url()),
        Progress::Done(result) => assert_eq!(
            result,
            Err(ReleaseFailure::Exhausted {
                version: "1.2.3+x".to_string(),
                payload: "repo@//[".to_string(),
                errors: vec![
                    AttemptError::Location,
                    AttemptError::Location,
                    AttemptError::Location,
                    AttemptError::Location,
                    AttemptError::Location,
                    AttemptError::Location,
                    AttemptError::Location,
                    AttemptError::Location,
                    AttemptError::Location,
                ],
            })
        ),
    }
}
