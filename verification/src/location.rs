//! Where the candidate signatures of a digest are published.

use vstd::prelude::*;
use vstd::string::*;
use crate::config::Config;
use crate::text::decimal;
use crate::text::decimal_text;
use crate::text::replace_colons;
use crate::text::replaced;

verus! {

/// The serialization of the URL that `url::Url::parse` reads from `text`,
/// where it reads one.
pub uninterp spec fn parsed_url(text: Seq<char>) -> Option<Seq<char>>;

/// The serialization of the URL that `url::Url::join` resolves `reference`
/// to against the URL that `url::Url::parse` reads from `base`, where the one
/// reads a URL and the other resolves to one.
pub uninterp spec fn joined_url(base: Seq<char>, reference: Seq<char>) -> Option<Seq<char>>;

/// Calls `url::Url::parse` and turns the URL into its serialization. The
/// parser is a function of the text alone; the contract gives the
/// serialization the name [`parsed_url`], with `None` for every parse error,
/// and claims nothing else of it.
#[verifier::external_body]
pub(crate) fn parse_url(text: &str) -> (parsed: Option<String>)
    ensures
        match parsed {
            Some(url) => parsed_url(text@) == Some(url@),
            None => parsed_url(text@) is None,
        },
{
    url::Url::parse(text).ok().map(String::from)
}

/// Parses `base` with `url::Url::parse`, calls `url::Url::join` on it with
/// `reference`, and turns the URL into its serialization. `join` parses
/// `reference` with the base as context; the answer depends on the two texts
/// alone. The contract gives the serialization the name [`joined_url`], with
/// `None` where either call returns an error.
#[verifier::external_body]
fn join_url(base: &str, reference: &str) -> (joined: Option<String>)
    ensures
        match joined {
            Some(url) => joined_url(base@, reference@) == Some(url@),
            None => joined_url(base@, reference@) is None,
        },
{
    url::Url::parse(base).ok()?.join(reference).ok().map(String::from)
}

/// The directory of a digest below the base location: the digest with every
/// `:` written as `=`, and a `/` behind it.
pub open spec fn digest_directory(digest: Seq<char>) -> Seq<char> {
    replaced(digest, ':', '=').push('/')
}

/// The file name of a candidate signature: `signature-` and the slot in decimal.
pub open spec fn slot_file(slot: u64) -> Seq<char> {
    seq!['s', 'i', 'g', 'n', 'a', 't', 'u', 'r', 'e', '-'] + decimal(slot as nat)
}

/// The location of the candidate signature of `digest` in `slot`: the base
/// joined with the digest's directory, and that joined with the slot's file.
/// `None` where one of the two joins yields no URL.
pub open spec fn signature_location(base: Seq<char>, digest: Seq<char>, slot: u64) -> Option<
    Seq<char>,
> {
    match joined_url(base, digest_directory(digest)) {
        Some(directory) => joined_url(directory, slot_file(slot)),
        None => None,
    }
}

/// Derives the location of the candidate signature of `digest` in `slot`.
pub fn signature_url(config: &Config, digest: &str, slot: u64) -> (location: Option<String>)
    ensures
        match location {
            Some(text) => signature_location(config.base_url@, digest@, slot) == Some(text@),
            None => signature_location(config.base_url@, digest@, slot) is None,
        },
{
    proof {
        reveal_strlit("/");
        reveal_strlit("signature-");
    }
    let mut directory: String = replace_colons(digest);
    directory.append("/");
    assert(directory@ =~= digest_directory(digest@));
    let mut file: String = String::from_str("signature-");
    file.append(decimal_text(slot).as_str());
    assert(file@ =~= slot_file(slot));
    match join_url(config.base_url.as_str(), directory.as_str()) {
        Some(parent) => join_url(parent.as_str(), file.as_str()),
        None => None,
    }
}

/// The location of a candidate is a function of the base, the digest and the
/// slot: two derivations from the same three agree, and what they agree on is
/// the base joined with [`digest_directory`], joined with [`slot_file`].
pub proof fn lemma_location_is_determined(
    base: Seq<char>,
    digest: Seq<char>,
    slot: u64,
    first: Option<Seq<char>>,
    second: Option<Seq<char>>,
)
    requires
        first == signature_location(base, digest, slot),
        second == signature_location(base, digest, slot),
    ensures
        first == second,
        first matches Some(text) ==> joined_url(base, digest_directory(digest)) is Some
            && joined_url(joined_url(base, digest_directory(digest)).unwrap(), slot_file(slot))
            == Some(text),
{
}

} // verus!
