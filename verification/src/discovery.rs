//! The search for a valid signature of one release, slot by slot.
//!
//! The search performs no request itself. It asks for the candidate of a
//! slot, the caller fetches it and hands the response back, and the search
//! says what comes next: another fetch, or the end.

use vstd::prelude::*;
use vstd::string::*;
use crate::attempt::outcome_view;
use crate::attempt::AttemptError;
use crate::attempt::Fault;
use crate::config::Config;
use crate::fetch::fetch_outcome;
use crate::fetch::fetched;
use crate::fetch::FetchResponse;
use crate::keyring::Keyring;
use crate::location::signature_location;
use crate::location::signature_url;
use crate::release::content_digest;
use crate::release::digest_of;
use crate::release::payload_from_release;
use crate::release::Release;
use crate::verify::signature_verdict;
use crate::verify::verify_signature;

verus! {

/// Why no valid signature was found for a release.
#[derive(Clone, Debug, PartialEq, Eq)]
pub enum ReleaseFailure {
    /// The release names no payload.
    NotConcrete { version: String },
    /// The payload reference of the release holds no digest.
    MissingDigest { version: String, payload: String },
    /// Every slot was tried; `errors` holds what went wrong with each, in the
    /// order of the slots.
    Exhausted { version: String, payload: String, errors: Vec<AttemptError> },
}

/// A [`ReleaseFailure`] with its strings as character sequences.
pub ghost enum Failure {
    NotConcrete { version: Seq<char> },
    MissingDigest { version: Seq<char>, payload: Seq<char> },
    Exhausted { version: Seq<char>, payload: Seq<char>, errors: Seq<Fault> },
}

impl View for ReleaseFailure {
    type V = Failure;

    open spec fn view(&self) -> Failure {
        match self {
            ReleaseFailure::NotConcrete { version } => Failure::NotConcrete { version: version@ },
            ReleaseFailure::MissingDigest { version, payload } => Failure::MissingDigest {
                version: version@,
                payload: payload@,
            },
            ReleaseFailure::Exhausted { version, payload, errors } => Failure::Exhausted {
                version: version@,
                payload: payload@,
                errors: errors.deep_view(),
            },
        }
    }
}

impl DeepView for ReleaseFailure {
    type V = Failure;

    open spec fn deep_view(&self) -> Failure {
        self@
    }
}

/// The result of the search for one release, with its strings as character sequences.
pub open spec fn result_view(result: Result<(), ReleaseFailure>) -> Result<(), Failure> {
    match result {
        Ok(_) => Ok(()),
        Err(failure) => Err(failure@),
    }
}

/// A search that waits for the candidate of `slot`.
pub ghost struct Search {
    /// Base location of the signature store.
    pub base: Seq<char>,
    /// Exclusive upper bound of the slots.
    pub max_signatures: u64,
    /// The trusted keys.
    pub keys: Seq<Seq<u8>>,
    /// Version of the release.
    pub version: Seq<char>,
    /// Payload reference of the release.
    pub payload: Seq<char>,
    /// Digest that a signature has to name.
    pub digest: Seq<char>,
    /// The slot that is tried next.
    pub slot: u64,
    /// What went wrong with the slots before `slot`, in their order.
    pub errors: Seq<Fault>,
}

impl Search {
    /// Where the candidate of the slot is published.
    pub open spec fn location(self) -> Option<Seq<char>> {
        signature_location(self.base, self.digest, self.slot)
    }

    /// The failure of a search that has run out of slots.
    pub open spec fn exhausted(self) -> Failure {
        Failure::Exhausted { version: self.version, payload: self.payload, errors: self.errors }
    }

    /// The search at the next slot, with `fault` recorded for this one.
    pub open spec fn moved_on(self, fault: Fault) -> Search {
        Search {
            base: self.base,
            max_signatures: self.max_signatures,
            keys: self.keys,
            version: self.version,
            payload: self.payload,
            digest: self.digest,
            slot: (self.slot + 1) as u64,
            errors: self.errors.push(fault),
        }
    }

    /// What the response to the request for the candidate of the slot is
    /// worth: the fetch error where the response is one, else the verdict on
    /// the body.
    pub open spec fn attempt(self, response: FetchResponse) -> Result<(), Fault> {
        match self.location() {
            Some(url) => match fetched(url, response) {
                Ok(body) => signature_verdict(self.keys, body, self.digest),
                Err(fault) => Err(fault),
            },
            None => Err(Fault::Location),
        }
    }
}

/// Where a search stands: it waits for a candidate, or it is over.
pub ghost enum Course {
    Fetch(Search),
    Done(Result<(), Failure>),
}

/// The search from `search.slot` on: it waits at the first slot for which a
/// location can be derived, with a location error recorded for each slot
/// before it, and it is exhausted where there is no such slot below the bound.
pub open spec fn seek(search: Search) -> Course
    decreases search.max_signatures - search.slot,
{
    if search.slot >= search.max_signatures {
        Course::Done(Err(search.exhausted()))
    } else if search.location() is Some {
        Course::Fetch(search)
    } else {
        seek(search.moved_on(Fault::Location))
    }
}

/// Where the search stands once the attempt at its slot has given `outcome`:
/// a success ends it, a failure is recorded and the search goes on from the
/// next slot.
pub open spec fn after(search: Search, outcome: Result<(), Fault>) -> Course {
    match outcome {
        Ok(_) => Course::Done(Ok(())),
        Err(fault) => if search.slot < search.max_signatures {
            seek(search.moved_on(fault))
        } else {
            Course::Done(Err(search.exhausted()))
        },
    }
}

/// Where the search for `release` starts: at slot 1 with nothing recorded,
/// unless the release names no payload or the payload no digest.
pub open spec fn begun(
    base: Seq<char>,
    max_signatures: u64,
    keys: Seq<Seq<u8>>,
    release: Release,
) -> Course {
    match release.payload_text() {
        Some(payload) => match digest_of(payload) {
            Some(digest) => seek(
                Search {
                    base,
                    max_signatures,
                    keys,
                    version: release.version_text(),
                    payload,
                    digest,
                    slot: 1,
                    errors: Seq::empty(),
                },
            ),
            None => Course::Done(
                Err(Failure::MissingDigest { version: release.version_text(), payload }),
            ),
        },
        None => Course::Done(Err(Failure::NotConcrete { version: release.version_text() })),
    }
}

/// The search for a valid signature of one release, waiting for the
/// candidate of a slot.
pub struct Discovery<'a> {
    config: &'a Config,
    keyring: &'a Keyring,
    version: String,
    payload: String,
    digest: String,
    slot: u64,
    url: String,
    errors: Vec<AttemptError>,
}

/// What the caller of a search does next.
pub enum Progress<'a> {
    /// Fetch the candidate at the search's [`Discovery::url`] and hand the
    /// response to [`Discovery::resume`].
    Fetch(Discovery<'a>),
    /// The search is over.
    Done(Result<(), ReleaseFailure>),
}

impl<'a> View for Discovery<'a> {
    type V = Search;

    closed spec fn view(&self) -> Search {
        Search {
            base: self.config.base_url@,
            max_signatures: self.config.max_signatures,
            keys: self.keyring@,
            version: self.version@,
            payload: self.payload@,
            digest: self.digest@,
            slot: self.slot,
            errors: self.errors.deep_view(),
        }
    }
}

impl<'a> View for Progress<'a> {
    type V = Course;

    open spec fn view(&self) -> Course {
        match self {
            Progress::Fetch(discovery) => Course::Fetch(discovery@),
            Progress::Done(result) => Course::Done(result_view(*result)),
        }
    }
}

/// Goes on from `slot` to the first slot for which a location can be derived.
fn seek_from<'a>(
    config: &'a Config,
    keyring: &'a Keyring,
    version: String,
    payload: String,
    digest: String,
    slot: u64,
    errors: Vec<AttemptError>,
) -> (progress: Progress<'a>)
    ensures
        progress@ == seek(
            Search {
                base: config.base_url@,
                max_signatures: config.max_signatures,
                keys: keyring@,
                version: version@,
                payload: payload@,
                digest: digest@,
                slot,
                errors: errors.deep_view(),
            },
        ),
{
    let mut current: u64 = slot;
    let mut recorded: Vec<AttemptError> = errors;
    while current < config.max_signatures
        invariant
            seek(
                Search {
                    base: config.base_url@,
                    max_signatures: config.max_signatures,
                    keys: keyring@,
                    version: version@,
                    payload: payload@,
                    digest: digest@,
                    slot,
                    errors: errors.deep_view(),
                },
            ) == seek(
                Search {
                    base: config.base_url@,
                    max_signatures: config.max_signatures,
                    keys: keyring@,
                    version: version@,
                    payload: payload@,
                    digest: digest@,
                    slot: current,
                    errors: recorded.deep_view(),
                },
            ),
        decreases config.max_signatures - current,
    {
        let ghost here = Search {
            base: config.base_url@,
            max_signatures: config.max_signatures,
            keys: keyring@,
            version: version@,
            payload: payload@,
            digest: digest@,
            slot: current,
            errors: recorded.deep_view(),
        };
        match signature_url(config, digest.as_str(), current) {
            Some(url) => {
                let discovery = Discovery {
                    config,
                    keyring,
                    version,
                    payload,
                    digest,
                    slot: current,
                    url,
                    errors: recorded,
                };
                assert(discovery@ == here);
                assert(seek(here) == Course::Fetch(here));
                return Progress::Fetch(discovery);
            },
            None => {
                recorded.push(AttemptError::Location);
                current += 1;
                assert(recorded.deep_view() =~= here.errors.push(Fault::Location));
                assert(seek(here) == seek(here.moved_on(Fault::Location)));
            },
        }
    }
    Progress::Done(Err(ReleaseFailure::Exhausted { version, payload, errors: recorded }))
}

impl<'a> Discovery<'a> {
    #[verifier::type_invariant]
    spec fn located(&self) -> bool {
        &&& self.slot < self.config.max_signatures
        &&& signature_location(self.config.base_url@, self.digest@, self.slot) == Some(self.url@)
    }

    /// Starts the search for a valid signature of `release`.
    pub fn begin(config: &'a Config, keyring: &'a Keyring, release: &Release) -> (progress:
        Progress<'a>)
        ensures
            progress@ == begun(config.base_url@, config.max_signatures, keyring@, *release),
    {
        let version: String = String::from_str(release.version());
        let payload: String = match payload_from_release(release) {
            Ok(payload) => payload,
            Err(_) => {
                return Progress::Done(Err(ReleaseFailure::NotConcrete { version }));
            },
        };
        let digest: String = match content_digest(payload.as_str()) {
            Ok(digest) => digest,
            Err(_) => {
                return Progress::Done(Err(ReleaseFailure::MissingDigest { version, payload }));
            },
        };
        let errors: Vec<AttemptError> = Vec::new();
        assert(errors.deep_view() =~= Seq::<Fault>::empty());
        seek_from(config, keyring, version, payload, digest, 1, errors)
    }

    /// The slot whose candidate the search waits for.
    pub fn slot(&self) -> (slot: u64)
        ensures
            slot == self@.slot,
            slot < self@.max_signatures,
    {
        proof {
            use_type_invariant(self);
        }
        self.slot
    }

    /// Where the candidate that the search waits for is published.
    pub fn url(&self) -> (url: &str)
        ensures
            self@.location() == Some(url@),
    {
        proof {
            use_type_invariant(self);
        }
        self.url.as_str()
    }

    /// The digest that a signature has to name.
    pub fn digest(&self) -> (digest: &str)
        ensures
            digest@ == self@.digest,
    {
        self.digest.as_str()
    }

    /// Goes on with the outcome of the attempt at the slot: a success ends
    /// the search, a failure is recorded and the next slot is tried.
    pub fn record(self, outcome: Result<(), AttemptError>) -> (progress: Progress<'a>)
        ensures
            progress@ == after(self@, outcome_view(outcome)),
    {
        proof {
            use_type_invariant(&self);
        }
        match outcome {
            Ok(_) => Progress::Done(Ok(())),
            Err(error) => {
                let ghost here = self@;
                let Discovery { config, keyring, version, payload, digest, slot, url, errors } =
                    self;
                let mut errors: Vec<AttemptError> = errors;
                errors.push(error);
                assert(errors.deep_view() =~= here.errors.push(error@));
                seek_from(config, keyring, version, payload, digest, slot + 1, errors)
            },
        }
    }

    /// Goes on with the response to the request for the candidate: a
    /// response that is no success is recorded, a body is verified against
    /// the keyring and the digest, and the search ends or tries the next slot.
    pub fn resume(self, response: FetchResponse) -> (progress: Progress<'a>)
        ensures
            progress@ == after(self@, self@.attempt(response)),
    {
        proof {
            use_type_invariant(&self);
        }
        let outcome: Result<(), AttemptError> = match fetch_outcome(self.url.as_str(), response) {
            Ok(body) => verify_signature(self.keyring, body.as_slice(), self.digest.as_str()),
            Err(error) => Err(error),
        };
        self.record(outcome)
    }
}

} // verus!
