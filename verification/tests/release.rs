use release_signatures::release::content_digest;
use release_signatures::release::payload_from_release;
use release_signatures::release::strip_architecture;
use release_signatures::release::AbstractRelease;
use release_signatures::release::ConcreteRelease;
use release_signatures::release::InputError;
use release_signatures::release::Release;

#[test]
fn payload_of_a_concrete_release_is_its_payload() {
    let release = Release::Concrete(ConcreteRelease {
        version: "4.10.3+amd64".to_string(),
        payload: "quay.io/openshift-release-dev/ocp-release@sha256:abc".to_string(),
    });
    assert_eq!(
        payload_from_release(&release),
        Ok("quay.io/openshift-release-dev/ocp-release@sha256:abc".to_string())
    );
    assert_eq!(release.version(), "4.10.3+amd64");
}

#[test]
fn payload_of_an_abstract_release_is_an_error() {
    let release = Release::Abstract(AbstractRelease { version: "4.10.3+amd64".to_string() });
    assert_eq!(payload_from_release(&release), Err(InputError::NotConcrete));
    assert_eq!(release.version(), "4.10.3+amd64");
}

#[test]
fn digest_is_what_follows_the_last_at() {
    assert_eq!(
        content_digest("quay.io/openshift-release-dev/ocp-release@sha256:deadbeef"),
        Ok("sha256:deadbeef".to_string())
    );
    assert_eq!(content_digest("user@host/repo@sha256:11"), Ok("sha256:11".to_string()));
    assert_eq!(content_digest("@x"), Ok("x".to_string()));
}

#[test]
fn payload_without_a_digest_is_an_error() {
    assert_eq!(content_digest("quay.io/openshift-release-dev/ocp-release"), Err(InputError::MissingDigest));
    assert_eq!(content_digest("quay.io/ocp-release@"), Err(InputError::MissingDigest));
    assert_eq!(content_digest(""), Err(InputError::MissingDigest));
    assert_eq!(content_digest("@"), Err(InputError::MissingDigest));
}

#[test]
fn architecture_is_cut_at_the_first_plus() {
    assert_eq!(strip_architecture("4.10.3+amd64"), "4.10.3");
    assert_eq!(strip_architecture("4.6.0-fc.3+s390x"), "4.6.0-fc.3");
    assert_eq!(strip_architecture("4.10.3+amd64+extra"), "4.10.3");
    assert_eq!(strip_architecture("+amd64"), "");
}

#[test]
fn version_without_architecture_is_left_alone() {
    assert_eq!(strip_architecture("4.10.3"), "4.10.3");
    assert_eq!(strip_architecture(""), "");
}
