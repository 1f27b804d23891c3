//! Releases of the catalogue, and what is read from their fields.

use vstd::prelude::*;
use vstd::string::*;
use crate::text::find_first;
use crate::text::find_last;

verus! {

/// A release that names the payload it was built from.
#[derive(Clone, Debug, PartialEq, Eq)]
pub struct ConcreteRelease {
    /// Semantic version followed by `+` and the architecture, as in `4.10.3+amd64`.
    pub version: String,
    /// Reference to the payload, of the form `repository@algorithm:hexdigest`.
    pub payload: String,
}

/// A release that is known by its version alone.
#[derive(Clone, Debug, PartialEq, Eq)]
pub struct AbstractRelease {
    pub version: String,
}

/// One entry of the release catalogue.
#[derive(Clone, Debug, PartialEq, Eq)]
pub enum Release {
    Concrete(ConcreteRelease),
    Abstract(AbstractRelease),
}

/// Why a release cannot be checked at all.
#[derive(Clone, Copy, Debug, PartialEq, Eq, Structural)]
pub enum InputError {
    /// The release names no payload.
    NotConcrete,
    /// The payload reference holds no digest after an `@`.
    MissingDigest,
    /// The version, without its architecture, is no semantic version.
    UnparseableVersion,
}

impl Release {
    /// The version string of the release, architecture included.
    pub open spec fn version_text(&self) -> Seq<char> {
        match self {
            Release::Concrete(concrete) => concrete.version@,
            Release::Abstract(abstract_release) => abstract_release.version@,
        }
    }

    /// The payload reference, where the release has one.
    pub open spec fn payload_text(&self) -> Option<Seq<char>> {
        match self {
            Release::Concrete(concrete) => Some(concrete.payload@),
            Release::Abstract(_) => None,
        }
    }

    /// The version string of the release, architecture included.
    pub fn version(&self) -> (version: &str)
        ensures
            version@ == self.version_text(),
    {
        match self {
            Release::Concrete(concrete) => concrete.version.as_str(),
            Release::Abstract(abstract_release) => abstract_release.version.as_str(),
        }
    }
}

/// The payload reference of a concrete release.
pub fn payload_from_release(release: &Release) -> (payload: Result<String, InputError>)
    ensures
        match payload {
            Ok(text) => release.payload_text() == Some(text@),
            Err(error) => release.payload_text() is None && error == InputError::NotConcrete,
        },
{
    match release {
        Release::Concrete(concrete) => Ok(concrete.payload.clone()),
        Release::Abstract(_) => Err(InputError::NotConcrete),
    }
}

/// The content digest in a payload reference: what follows the last `@`,
/// where there is an `@` and something follows it.
pub open spec fn digest_of(payload: Seq<char>) -> Option<Seq<char>> {
    match payload.index_of_last('@') {
        Some(at) => if at + 1 < payload.len() {
            Some(payload.subrange(at + 1, payload.len() as int))
        } else {
            None
        },
        None => None,
    }
}

/// Extracts the content digest from a payload reference.
pub fn content_digest(payload: &str) -> (digest: Result<String, InputError>)
    ensures
        match digest {
            Ok(text) => digest_of(payload@) == Some(text@) && text@.len() > 0,
            Err(error) => digest_of(payload@) is None && error == InputError::MissingDigest,
        },
{
    let length: usize = payload.unicode_len();
    match find_last(payload, '@') {
        Some(at) => {
            proof {
                payload@.index_of_last_ensures('@');
            }
            if at + 1 < length {
                Ok(String::from_str(payload.substring_char(at + 1, length)))
            } else {
                Err(InputError::MissingDigest)
            }
        },
        None => Err(InputError::MissingDigest),
    }
}

/// A version string without its architecture: what stands before the first `+`.
pub open spec fn without_architecture(version: Seq<char>) -> Seq<char> {
    match version.index_of_first('+') {
        Some(plus) => version.subrange(0, plus),
        None => version,
    }
}

/// Cuts the architecture suffix off a version string.
pub fn strip_architecture(version: &str) -> (stripped: &str)
    ensures
        stripped@ == without_architecture(version@),
{
    match find_first(version, '+') {
        Some(plus) => {
            proof {
                version@.index_of_first_ensures('+');
            }
            version.substring_char(0, plus)
        },
        None => version,
    }
}

} // verus!
