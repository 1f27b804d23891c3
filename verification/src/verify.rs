//! What a candidate signature is worth against a keyring and an expected digest.

use pgp::composed::Deserializable;
use vstd::prelude::*;
use vstd::string::*;
use crate::attempt::outcome_view;
use crate::attempt::AttemptError;
use crate::attempt::Fault;
use crate::keyring::Keyring;

verus! {

/// The data that the OpenPGP message in `body` carries, as `pgp` reads it:
/// what `Message::as_data_vec` returns for the message that
/// `Message::from_bytes` makes of `body`, once `Message::decompress` has
/// opened it. `None` where one of the three returns an error.
pub uninterp spec fn message_content(body: Seq<u8>) -> Option<Seq<u8>>;

/// Whether the key in the armored file `key` validates the signature of the
/// message in `body`, as `pgp` checks it: whether `Message::verify_read`
/// accepts the key that `SignedPublicKey::from_armor_single` reads from `key`
/// for the message that `Message::from_bytes` makes of `body`, once
/// `Message::decompress` has opened it. False where one of the four returns an
/// error.
pub uninterp spec fn signature_valid(body: Seq<u8>, key: Seq<u8>) -> bool;

/// The string that the JSON document `document` holds at `pointer`, as
/// `serde_json` finds it: what `Value::as_str` returns for the value that
/// `Value::pointer` looks up in the document that `serde_json::from_slice`
/// reads. `None` where the text is no document, the pointer leads nowhere, or
/// the value there is no string.
pub uninterp spec fn json_string_at(document: Seq<u8>, pointer: Seq<char>) -> Option<Seq<char>>;

/// Reads the data of the OpenPGP message in `body`: `Message::from_bytes` of
/// `pgp` makes a message of the bytes, `Message::decompress` opens it where
/// it is compressed, and `Message::as_data_vec` reads it to its end and
/// returns the data it carries. The three read nothing but `body`. The
/// contract names the data [`message_content`], with `None` where one of the
/// calls returns an error.
#[verifier::external_body]
fn read_content(body: &[u8]) -> (content: Option<Vec<u8>>)
    ensures
        match content {
            Some(data) => message_content(body@) == Some(data@),
            None => message_content(body@) is None,
        },
{
    pgp::composed::Message::from_bytes(body).ok()?.decompress().ok()?.as_data_vec().ok()
}

/// Checks the signature of the OpenPGP message in `body` against the key in
/// the armored file `key`: `SignedPublicKey::from_armor_single` of `pgp`
/// reads the key, `Message::from_bytes` and `Message::decompress` make the
/// message, and `Message::verify_read` reads the message to its end and
/// checks its first signature against the hash of what it read, with the
/// primary key. The four read nothing but the two byte strings. The result
/// is `Some` where all four succeed; the contract names that
/// [`signature_valid`].
#[verifier::external_body]
fn key_validates(body: &[u8], key: &[u8]) -> (valid: Option<()>)
    ensures
        valid is Some <==> signature_valid(body@, key@),
{
    let (key, _) = pgp::composed::SignedPublicKey::from_armor_single(key).ok()?;
    let mut message = pgp::composed::Message::from_bytes(body).ok()?.decompress().ok()?;
    message.verify_read(&key).ok().map(|_| ())
}

/// Looks up a string in a JSON document: `serde_json::from_slice` reads the
/// document as a `Value`, `Value::pointer` follows `pointer` through its
/// objects, and `Value::as_str` gives the string where the value found is
/// one. The contract names the string [`json_string_at`], with `None` where
/// one of the three finds nothing.
#[verifier::external_body]
fn string_at(document: &[u8], pointer: &str) -> (found: Option<String>)
    ensures
        match found {
            Some(text) => json_string_at(document@, pointer@) == Some(text@),
            None => json_string_at(document@, pointer@) is None,
        },
{
    serde_json::from_slice::<serde_json::Value>(document).ok()?.pointer(pointer)?.as_str().map(
        String::from,
    )
}

/// Whether some key of `keys` validates the signature of the message in `body`.
pub open spec fn trusted(keys: Seq<Seq<u8>>, body: Seq<u8>) -> bool {
    exists|i: int| 0 <= i < keys.len() && signature_valid(body, #[trigger] keys[i])
}

/// Where signed content names the digest it vouches for: the member
/// `docker-manifest-digest` of the member `image` of the member `critical`
/// of the document, as a JSON pointer.
pub open spec fn digest_pointer() -> Seq<char> {
    "/critical/image/docker-manifest-digest"@
}

/// The digest that signed content names: the string at [`digest_pointer`]
/// of the JSON document that the content is. `None` where the content is
/// empty, is no JSON document, or holds no string there.
pub open spec fn embedded_digest(content: Seq<u8>) -> Option<Seq<char>> {
    if content.len() == 0 {
        None
    } else {
        json_string_at(content, digest_pointer())
    }
}

/// What a digest found under a valid signature is worth: success where it is
/// the expected one, character for character, and a mismatch that carries it
/// where it is not.
pub open spec fn digest_verdict(actual: Seq<char>, expected: Seq<char>) -> Result<(), Fault> {
    if actual == expected {
        Ok(())
    } else {
        Err(Fault::DigestMismatch { actual })
    }
}

/// What the content under a valid signature is worth.
pub open spec fn content_verdict(content: Seq<u8>, expected: Seq<char>) -> Result<(), Fault> {
    if content.len() == 0 {
        Err(Fault::EmptyContent)
    } else {
        match embedded_digest(content) {
            Some(actual) => digest_verdict(actual, expected),
            None => Err(Fault::Undecodable),
        }
    }
}

/// What a candidate that can be read is worth: a trust error where no key
/// validates its signature, whatever it carries, and the verdict on its
/// content where one does.
pub open spec fn message_verdict(trusted: bool, content: Seq<u8>, expected: Seq<char>) -> Result<
    (),
    Fault,
> {
    if trusted {
        content_verdict(content, expected)
    } else {
        Err(Fault::Untrusted)
    }
}

/// What a candidate signature is worth: a parse error where it cannot be
/// read, a trust error where no key validates it, and the verdict on its
/// content otherwise.
pub open spec fn signature_verdict(keys: Seq<Seq<u8>>, body: Seq<u8>, expected: Seq<char>) -> Result<
    (),
    Fault,
> {
    match message_content(body) {
        Some(content) => message_verdict(trusted(keys, body), content, expected),
        None => Err(Fault::Parse),
    }
}

/// Compares the digest found under a valid signature with the expected one.
pub fn compare_digest(actual: String, expected: &str) -> (verdict: Result<(), AttemptError>)
    ensures
        outcome_view(verdict) == digest_verdict(actual@, expected@),
{
    if actual == String::from_str(expected) {
        Ok(())
    } else {
        Err(AttemptError::DigestMismatch { actual })
    }
}

/// Reads the digest that signed content names.
pub fn read_embedded_digest(content: &[u8]) -> (digest: Option<String>)
    ensures
        match digest {
            Some(text) => embedded_digest(content@) == Some(text@),
            None => embedded_digest(content@) is None,
        },
{
    if content.len() == 0 {
        None
    } else {
        string_at(content, "/critical/image/docker-manifest-digest")
    }
}

/// Judges the content found under a valid signature.
pub fn check_content(content: &[u8], expected_digest: &str) -> (verdict: Result<(), AttemptError>)
    ensures
        outcome_view(verdict) == content_verdict(content@, expected_digest@),
{
    if content.len() == 0 {
        return Err(AttemptError::EmptyContent);
    }
    match read_embedded_digest(content) {
        Some(actual) => compare_digest(actual, expected_digest),
        None => Err(AttemptError::Undecodable),
    }
}

/// Judges a candidate that could be read: `trusted` says whether a key of the
/// keyring validates its signature, `content` is what it carries.
pub fn judge(trusted: bool, content: &[u8], expected_digest: &str) -> (verdict: Result<
    (),
    AttemptError,
>)
    ensures
        outcome_view(verdict) == message_verdict(trusted, content@, expected_digest@),
{
    if !trusted {
        return Err(AttemptError::Untrusted);
    }
    check_content(content, expected_digest)
}

/// Whether some key of the keyring validates the signature of the message
/// in `body`. The first key that does settles it.
pub fn any_key_validates(keyring: &Keyring, body: &[u8]) -> (valid: bool)
    ensures
        valid == trusted(keyring@, body@),
{
    let mut index: usize = 0;
    while index < keyring.len()
        invariant
            index <= keyring@.len(),
            forall|i: int| 0 <= i < index ==> !signature_valid(body@, #[trigger] keyring@[i]),
        decreases keyring@.len() - index,
    {
        match key_validates(body, keyring.key(index)) {
            Some(_) => {
                return true;
            },
            None => {},
        }
        index += 1;
    }
    false
}

/// Verifies that `body` is a message signed by a key of the keyring whose
/// content names `expected_digest`.
pub fn verify_signature(keyring: &Keyring, body: &[u8], expected_digest: &str) -> (verdict: Result<
    (),
    AttemptError,
>)
    ensures
        outcome_view(verdict) == signature_verdict(keyring@, body@, expected_digest@),
{
    let content: Vec<u8> = match read_content(body) {
        Some(content) => content,
        None => {
            return Err(AttemptError::Parse);
        },
    };
    judge(any_key_validates(keyring, body), content.as_slice(), expected_digest)
}

/// A candidate that can be read but that no key of the keyring validates is
/// a trust error, whatever its content and whatever digest is expected.
pub proof fn lemma_unknown_signer_is_refused(
    keys: Seq<Seq<u8>>,
    body: Seq<u8>,
    expected: Seq<char>,
)
    requires
        message_content(body) is Some,
        !trusted(keys, body),
    ensures
        signature_verdict(keys, body, expected) == Err::<(), Fault>(Fault::Untrusted),
{
}

/// A candidate that a key of the keyring validates and whose content names
/// another digest than the expected one is a digest mismatch that carries the
/// digest it names.
pub proof fn lemma_other_digest_is_reported(
    keys: Seq<Seq<u8>>,
    body: Seq<u8>,
    expected: Seq<char>,
    actual: Seq<char>,
)
    requires
        message_content(body) is Some,
        trusted(keys, body),
        embedded_digest(message_content(body).unwrap()) == Some(actual),
        actual != expected,
    ensures
        signature_verdict(keys, body, expected) == Err::<(), Fault>(
            Fault::DigestMismatch { actual },
        ),
{
}

/// A candidate verifies for exactly one expected digest: where it verifies
/// for `expected`, it names `expected`, and for every other digest it is a
/// digest mismatch that carries `expected`.
pub proof fn lemma_verifies_for_one_digest(
    keys: Seq<Seq<u8>>,
    body: Seq<u8>,
    expected: Seq<char>,
    other: Seq<char>,
)
    requires
        signature_verdict(keys, body, expected) is Ok,
        other != expected,
    ensures
        message_content(body) is Some,
        embedded_digest(message_content(body).unwrap()) == Some(expected),
        signature_verdict(keys, body, other) == Err::<(), Fault>(
            Fault::DigestMismatch { actual: expected },
        ),
{
}

} // verus!
