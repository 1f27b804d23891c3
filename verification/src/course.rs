//! What a search comes to when it is driven to its end, and what holds of that.

use vstd::prelude::*;
use crate::attempt::Fault;
use crate::discovery::after;
use crate::discovery::begun;
use crate::discovery::seek;
use crate::discovery::Course;
use crate::discovery::Failure;
use crate::discovery::Search;
use crate::fetch::fetched;
use crate::fetch::is_success_status;
use crate::fetch::FetchResponse;
use crate::release::digest_of;
use crate::release::Release;

verus! {

/// The end of a search, and what it took to get there.
pub ghost struct Trace {
    /// How the search ended.
    pub result: Result<(), Failure>,
    /// Number of candidates that were asked for.
    pub fetches: nat,
    /// Number of candidates that came back and were verified.
    pub verifications: nat,
}

impl Search {
    /// The search with the same release, store and keys, at `slot`.
    pub open spec fn at(self, slot: u64) -> Search {
        Search {
            base: self.base,
            max_signatures: self.max_signatures,
            keys: self.keys,
            version: self.version,
            payload: self.payload,
            digest: self.digest,
            slot,
            errors: self.errors,
        }
    }

    /// Whether the response to the request for the candidate of the slot is
    /// a body, which is then verified.
    pub open spec fn verifies(self, response: FetchResponse) -> bool {
        self.location() is Some && fetched(self.location().unwrap(), response) is Ok
    }

    /// The error that the attempt at the slot records for `response`, where
    /// the attempt fails.
    pub open spec fn fault(self, response: FetchResponse) -> Fault {
        match self.attempt(response) {
            Ok(_) => Fault::Location,
            Err(fault) => fault,
        }
    }

    /// Whether `other` searches for the same release in the same store with
    /// the same keys.
    pub open spec fn same_release(self, other: Search) -> bool {
        &&& self.base == other.base
        &&& self.max_signatures == other.max_signatures
        &&& self.keys == other.keys
        &&& self.version == other.version
        &&& self.payload == other.payload
        &&& self.digest == other.digest
    }
}

/// The slots that a search can still try.
pub open spec fn slots_left(course: Course) -> nat {
    match course {
        Course::Fetch(search) => if search.slot < search.max_signatures {
            (search.max_signatures - search.slot) as nat
        } else {
            0
        },
        Course::Done(_) => 0,
    }
}

/// A search that goes on from a slot waits at that slot or a later one below
/// the bound, for the same release, and at a slot that has a location.
pub proof fn lemma_seek_goes_forward(search: Search)
    ensures
        seek(search) matches Course::Fetch(found) ==> search.slot <= found.slot
            < search.max_signatures && found.location() is Some && found.same_release(search),
    decreases search.max_signatures - search.slot,
{
    if search.slot < search.max_signatures && search.location() is None {
        lemma_seek_goes_forward(search.moved_on(Fault::Location));
    }
}

/// What the search comes to when the caller answers every request, where
/// `responses` gives the response to the request for the candidate of a slot.
pub open spec fn concluded(course: Course, responses: spec_fn(u64) -> FetchResponse) -> Trace
    decreases slots_left(course),
{
    match course {
        Course::Done(result) => Trace { result, fetches: 0, verifications: 0 },
        Course::Fetch(search) => if search.slot >= search.max_signatures {
            Trace { result: Err(search.exhausted()), fetches: 0, verifications: 0 }
        } else {
            let response = responses(search.slot);
            let next = after(search, search.attempt(response));
            proof {
                if search.attempt(response) is Err {
                    lemma_seek_goes_forward(search.moved_on(search.attempt(response)->Err_0));
                }
            }
            let rest = concluded(next, responses);
            Trace {
                result: rest.result,
                fetches: rest.fetches + 1,
                verifications: rest.verifications + if search.verifies(response) {
                    1nat
                } else {
                    0nat
                },
            }
        },
    }
}

/// The errors that the slots from `search.slot` up to the bound record, in
/// the order of the slots, where the attempt at each of them fails.
pub open spec fn faults_ahead(search: Search, responses: spec_fn(u64) -> FetchResponse) -> Seq<
    Fault,
> {
    Seq::new(
        slots_left(Course::Fetch(search)),
        |i: int| search.at((search.slot + i) as u64).fault(responses((search.slot + i) as u64)),
    )
}

/// A search never verifies more candidates than it fetches, and never
/// fetches more than there are slots left.
pub proof fn lemma_effort_is_bounded(course: Course, responses: spec_fn(u64) -> FetchResponse)
    ensures
        concluded(course, responses).verifications <= concluded(course, responses).fetches,
        concluded(course, responses).fetches <= slots_left(course),
    decreases slots_left(course),
{
    if let Course::Fetch(search) = course {
        if search.slot < search.max_signatures {
            let outcome = search.attempt(responses(search.slot));
            if outcome is Err {
                lemma_seek_goes_forward(search.moved_on(outcome->Err_0));
            }
            lemma_effort_is_bounded(after(search, outcome), responses);
        }
    }
}

/// Where the attempt fails at every slot from `search.slot` on, the search
/// ends exhausted, with the errors it had and one error for each of those
/// slots behind them.
pub proof fn lemma_failures_exhaust(search: Search, responses: spec_fn(u64) -> FetchResponse)
    requires
        forall|slot: u64|
            search.slot <= slot < search.max_signatures ==> search.at(slot).attempt(
                #[trigger] responses(slot),
            ) is Err,
    ensures
        concluded(seek(search), responses).result == Err::<(), Failure>(
            Failure::Exhausted {
                version: search.version,
                payload: search.payload,
                errors: search.errors + faults_ahead(search, responses),
            },
        ),
        (forall|slot: u64|
            search.slot <= slot < search.max_signatures ==> !search.at(slot).verifies(
                #[trigger] responses(slot),
            )) ==> concluded(seek(search), responses).verifications == 0,
    decreases search.max_signatures - search.slot,
{
    if search.slot >= search.max_signatures {
        assert(search.errors + faults_ahead(search, responses) =~= search.errors);
    } else {
        let response = responses(search.slot);
        assert(search.at(search.slot) == search);
        let fault = search.fault(response);
        let next = search.moved_on(fault);
        assert forall|slot: u64| next.slot <= slot < next.max_signatures implies next.at(
            slot,
        ).attempt(#[trigger] responses(slot)) is Err by {
            assert(next.at(slot).attempt(responses(slot)) == search.at(slot).attempt(
                responses(slot),
            ));
        }
        lemma_failures_exhaust(next, responses);
        assert(next.errors + faults_ahead(next, responses) =~= search.errors + faults_ahead(
            search,
            responses,
        )) by {
            let left = next.errors + faults_ahead(next, responses);
            let right = search.errors + faults_ahead(search, responses);
            assert(left.len() == right.len());
            assert forall|i: int| 0 <= i < left.len() implies left[i] == right[i] by {
                if i > search.errors.len() {
                    let ahead = i - search.errors.len();
                    assert(next.at((next.slot + (ahead - 1)) as u64).fault(
                        responses((next.slot + (ahead - 1)) as u64),
                    ) == search.at((search.slot + ahead) as u64).fault(
                        responses((search.slot + ahead) as u64),
                    ));
                }
            }
        }
        if search.location() is Some {
            assert(seek(search) == Course::Fetch(search));
            assert(after(search, search.attempt(response)) == seek(next));
            if forall|slot: u64|
                search.slot <= slot < search.max_signatures ==> !search.at(slot).verifies(
                    #[trigger] responses(slot),
                ) {
                assert(!search.at(search.slot).verifies(responses(search.slot)));
                assert forall|slot: u64|
                    next.slot <= slot < next.max_signatures implies !next.at(slot).verifies(
                    #[trigger] responses(slot),
                ) by {
                    assert(next.at(slot).verifies(responses(slot)) == search.at(slot).verifies(
                        responses(slot),
                    ));
                }
            }
        } else {
            assert(seek(search) == seek(next));
            if forall|slot: u64|
                search.slot <= slot < search.max_signatures ==> !search.at(slot).verifies(
                    #[trigger] responses(slot),
                ) {
                assert forall|slot: u64|
                    next.slot <= slot < next.max_signatures implies !next.at(slot).verifies(
                    #[trigger] responses(slot),
                ) by {
                    assert(next.at(slot).verifies(responses(slot)) == search.at(slot).verifies(
                        responses(slot),
                    ));
                }
            }
        }
    }
}

/// Where every slot from `search.slot` to `winner` has a location, the
/// attempt fails at the slots before `winner` and succeeds at `winner`, the
/// search ends in success with the fetch at `winner`: no later slot is tried.
pub proof fn lemma_success_stops(
    search: Search,
    responses: spec_fn(u64) -> FetchResponse,
    winner: u64,
)
    requires
        search.slot <= winner < search.max_signatures,
        forall|slot: u64|
            search.slot <= slot <= winner ==> (#[trigger] search.at(slot)).location() is Some,
        forall|slot: u64|
            search.slot <= slot < winner ==> search.at(slot).attempt(#[trigger] responses(slot))
                is Err,
        search.at(winner).attempt(responses(winner)) is Ok,
    ensures
        concluded(seek(search), responses).result == Ok::<(), Failure>(()),
        concluded(seek(search), responses).fetches == winner - search.slot + 1,
        1 <= concluded(seek(search), responses).verifications <= winner - search.slot + 1,
        (forall|slot: u64|
            search.slot <= slot < winner ==> !search.at(slot).verifies(#[trigger] responses(slot)))
            ==> concluded(seek(search), responses).verifications == 1,
    decreases winner - search.slot,
{
    let response = responses(search.slot);
    assert(search.at(search.slot) == search);
    assert(seek(search) == Course::Fetch(search));
    if search.slot == winner {
        assert(after(search, search.attempt(response)) == Course::Done(Ok(())));
        assert(concluded(Course::Done(Ok(())), responses).fetches == 0);
        assert(search.verifies(response));
    } else {
        let fault = search.fault(response);
        let next = search.moved_on(fault);
        assert(after(search, search.attempt(response)) == seek(next));
        assert forall|slot: u64| next.slot <= slot <= winner implies (#[trigger] next.at(
            slot,
        )).location() is Some by {
            assert(next.at(slot).location() == search.at(slot).location());
        }
        assert forall|slot: u64| next.slot <= slot < winner implies next.at(slot).attempt(
            #[trigger] responses(slot),
        ) is Err by {
            assert(next.at(slot).attempt(responses(slot)) == search.at(slot).attempt(
                responses(slot),
            ));
        }
        assert(next.at(winner).attempt(responses(winner)) == search.at(winner).attempt(
            responses(winner),
        ));
        lemma_success_stops(next, responses, winner);
        if forall|slot: u64|
            search.slot <= slot < winner ==> !search.at(slot).verifies(#[trigger] responses(slot)) {
            assert(!search.at(search.slot).verifies(responses(search.slot)));
            assert forall|slot: u64| next.slot <= slot < winner implies !next.at(slot).verifies(
                #[trigger] responses(slot),
            ) by {
                assert(next.at(slot).verifies(responses(slot)) == search.at(slot).verifies(
                    responses(slot),
                ));
            }
        }
    }
}

/// The search for a release that names a digest, as it starts.
pub open spec fn first_search(
    base: Seq<char>,
    max_signatures: u64,
    keys: Seq<Seq<u8>>,
    release: Release,
) -> Search {
    Search {
        base,
        max_signatures,
        keys,
        version: release.version_text(),
        payload: release.payload_text().unwrap(),
        digest: digest_of(release.payload_text().unwrap()).unwrap(),
        slot: 1,
        errors: Seq::empty(),
    }
}

/// A search whose candidate at `winner` is fetched and verifies, while the
/// fetch fails at every slot before it, ends in success after exactly
/// `winner` fetches and one verification, whatever the bound of the slots
/// above `winner` is. Every slot up to `winner` is taken to have a location.
pub proof fn lemma_success_ends_search(
    base: Seq<char>,
    max_signatures: u64,
    keys: Seq<Seq<u8>>,
    release: Release,
    responses: spec_fn(u64) -> FetchResponse,
    winner: u64,
)
    requires
        release.payload_text() is Some,
        digest_of(release.payload_text().unwrap()) is Some,
        1 <= winner < max_signatures,
        forall|slot: u64|
            1 <= slot <= winner ==> (#[trigger] first_search(
                base,
                max_signatures,
                keys,
                release,
            ).at(slot)).location() is Some,
        forall|slot: u64|
            1 <= slot < winner ==> !first_search(base, max_signatures, keys, release).at(
                slot,
            ).verifies(#[trigger] responses(slot)),
        first_search(base, max_signatures, keys, release).at(winner).attempt(responses(winner))
            is Ok,
    ensures
        concluded(begun(base, max_signatures, keys, release), responses).result == Ok::<
            (),
            Failure,
        >(()),
        concluded(begun(base, max_signatures, keys, release), responses).fetches == winner,
        concluded(begun(base, max_signatures, keys, release), responses).verifications == 1,
{
    let search = first_search(base, max_signatures, keys, release);
    assert forall|slot: u64| search.slot <= slot < winner implies search.at(slot).attempt(
        #[trigger] responses(slot),
    ) is Err by {
        assert(search.at(slot).location() is Some);
        assert(!search.at(slot).verifies(responses(slot)));
    }
    lemma_success_stops(search, responses, winner);
}

/// A search in which the attempt fails at every slot ends exhausted, and its
/// failure lists one error for each slot from 1 up to the bound, in the
/// order of the slots: the error that the attempt at that slot gave.
pub proof fn lemma_exhaustion_lists_every_slot(
    base: Seq<char>,
    max_signatures: u64,
    keys: Seq<Seq<u8>>,
    release: Release,
    responses: spec_fn(u64) -> FetchResponse,
)
    requires
        release.payload_text() is Some,
        digest_of(release.payload_text().unwrap()) is Some,
        max_signatures >= 1,
        forall|slot: u64|
            1 <= slot < max_signatures ==> first_search(base, max_signatures, keys, release).at(
                slot,
            ).attempt(#[trigger] responses(slot)) is Err,
    ensures
        concluded(begun(base, max_signatures, keys, release), responses).result matches Err(
            Failure::Exhausted { version, payload, errors },
        ) && version == release.version_text() && payload == release.payload_text().unwrap()
            && errors.len() == max_signatures - 1 && forall|i: int|
            0 <= i < errors.len() ==> #[trigger] errors[i] == first_search(
                base,
                max_signatures,
                keys,
                release,
            ).at((i + 1) as u64).fault(responses((i + 1) as u64)),
{
    let search = first_search(base, max_signatures, keys, release);
    lemma_failures_exhaust(search, responses);
    assert(search.errors + faults_ahead(search, responses) =~= faults_ahead(search, responses));
}

/// A search in which the store answers every request with a status that is
/// no success ends exhausted with one error for each slot from 1 up to the
/// bound, and verifies nothing. Each error is that status with the location
/// of the slot, or a location error where the slot has no location.
pub proof fn lemma_refusals_exhaust(
    base: Seq<char>,
    max_signatures: u64,
    keys: Seq<Seq<u8>>,
    release: Release,
    responses: spec_fn(u64) -> FetchResponse,
)
    requires
        release.payload_text() is Some,
        digest_of(release.payload_text().unwrap()) is Some,
        max_signatures >= 1,
        forall|slot: u64|
            1 <= slot < max_signatures ==> (#[trigger] responses(slot)) is Answered
                && !is_success_status(responses(slot)->status),
    ensures
        concluded(begun(base, max_signatures, keys, release), responses).verifications == 0,
        concluded(begun(base, max_signatures, keys, release), responses).result matches Err(
            Failure::Exhausted { version, payload, errors },
        ) && version == release.version_text() && payload == release.payload_text().unwrap()
            && errors.len() == max_signatures - 1 && forall|i: int|
            0 <= i < errors.len() ==> #[trigger] errors[i] == (match first_search(
                base,
                max_signatures,
                keys,
                release,
            ).at((i + 1) as u64).location() {
                Some(url) => Fault::Status { url, status: responses((i + 1) as u64)->status },
                None => Fault::Location,
            }),
{
    let search = first_search(base, max_signatures, keys, release);
    assert forall|slot: u64| search.slot <= slot < search.max_signatures implies search.at(
        slot,
    ).attempt(#[trigger] responses(slot)) is Err && !search.at(slot).verifies(responses(slot)) by {
        assert(responses(slot) is Answered);
    }
    lemma_failures_exhaust(search, responses);
    assert(search.errors + faults_ahead(search, responses) =~= faults_ahead(search, responses));
    assert forall|i: int| 0 <= i < faults_ahead(search, responses).len() implies #[trigger] faults_ahead(
        search,
        responses,
    )[i] == (match search.at((i + 1) as u64).location() {
        Some(url) => Fault::Status { url, status: responses((i + 1) as u64)->status },
        None => Fault::Location,
    }) by {
        assert(responses((i + 1) as u64) is Answered);
    }
}

} // verus!
