//! Which releases of a catalogue are checked, and what a run over them comes to.

use vstd::prelude::*;
use vstd::string::*;
use crate::config::Config;
use crate::discovery::begun;
use crate::discovery::result_view;
use crate::discovery::Discovery;
use crate::discovery::Failure;
use crate::discovery::Progress;
use crate::discovery::ReleaseFailure;
use crate::keyring::Keyring;
use crate::release::strip_architecture;
use crate::release::without_architecture;
use crate::release::InputError;
use crate::release::Release;
use crate::text::contains_text;

verus! {

/// A semantic version: three numbers, a pre-release and build metadata, the
/// last two empty where the version has none.
#[derive(Clone, Debug, PartialEq, Eq)]
pub struct SemanticVersion {
    pub major: u64,
    pub minor: u64,
    pub patch: u64,
    pub pre: String,
    pub build: String,
}

/// A [`SemanticVersion`] with its strings as character sequences.
pub ghost struct VersionNumber {
    pub major: u64,
    pub minor: u64,
    pub patch: u64,
    pub pre: Seq<char>,
    pub build: Seq<char>,
}

impl View for SemanticVersion {
    type V = VersionNumber;

    open spec fn view(&self) -> VersionNumber {
        VersionNumber {
            major: self.major,
            minor: self.minor,
            patch: self.patch,
            pre: self.pre@,
            build: self.build@,
        }
    }
}

impl DeepView for SemanticVersion {
    type V = VersionNumber;

    open spec fn deep_view(&self) -> VersionNumber {
        self@
    }
}

/// The version that `semver::Version::parse` reads from `text`, where it reads one.
pub uninterp spec fn parsed_version(text: Seq<char>) -> Option<VersionNumber>;

/// Calls `semver::Version::parse` and copies the five fields of the version
/// it returns, the pre-release and the build metadata as the strings that
/// their `as_str` gives. The parser is a function of the text alone; the
/// contract names what it reads [`parsed_version`], with `None` for every error.
#[verifier::external_body]
fn parse_version(text: &str) -> (parsed: Option<SemanticVersion>)
    ensures
        match parsed {
            Some(version) => parsed_version(text@) == Some(version@),
            None => parsed_version(text@) is None,
        },
{
    match semver::Version::parse(text) {
        Ok(version) => Some(
            SemanticVersion {
                major: version.major,
                minor: version.minor,
                patch: version.patch,
                pre: version.pre.as_str().to_owned(),
                build: version.build.as_str().to_owned(),
            },
        ),
        Err(_) => None,
    }
}

impl SemanticVersion {
    /// Reads a semantic version.
    pub fn parse(text: &str) -> (parsed: Option<SemanticVersion>)
        ensures
            match parsed {
                Some(version) => parsed_version(text@) == Some(version@),
                None => parsed_version(text@) is None,
            },
    {
        parse_version(text)
    }

    /// Whether two versions are the same in all five fields.
    pub fn same(&self, other: &SemanticVersion) -> (same: bool)
        ensures
            same == (self@ == other@),
    {
        self.major == other.major && self.minor == other.minor && self.patch == other.patch
            && self.pre == other.pre && self.build == other.build
    }
}

/// Whether `versions` holds `wanted`.
pub fn is_known(versions: &Vec<SemanticVersion>, wanted: &SemanticVersion) -> (known: bool)
    ensures
        known == versions.deep_view().contains(wanted@),
{
    let mut index: usize = 0;
    while index < versions.len()
        invariant
            index <= versions.len(),
            forall|j: int| 0 <= j < index ==> (#[trigger] versions.deep_view()[j]) != wanted@,
        decreases versions.len() - index,
    {
        if versions[index].same(wanted) {
            assert(versions.deep_view()[index as int] == wanted@);
            return true;
        }
        index += 1;
    }
    false
}

/// Looks for a version of the catalogue that has no image: the first of
/// `wanted` that `available` does not hold.
pub fn first_missing(wanted: &Vec<SemanticVersion>, available: &Vec<SemanticVersion>) -> (missing:
    Option<usize>)
    ensures
        match missing {
            Some(index) => index < wanted@.len() && !available.deep_view().contains(
                wanted@[index as int]@,
            ) && forall|i: int|
                0 <= i < index ==> available.deep_view().contains((#[trigger] wanted@[i])@),
            None => forall|i: int|
                0 <= i < wanted@.len() ==> available.deep_view().contains((#[trigger] wanted@[i])@),
        },
{
    let mut index: usize = 0;
    while index < wanted.len()
        invariant
            index <= wanted@.len(),
            forall|i: int|
                0 <= i < index ==> available.deep_view().contains((#[trigger] wanted@[i])@),
        decreases wanted@.len() - index,
    {
        if !is_known(available, &wanted[index]) {
            return Some(index);
        }
        index += 1;
    }
    None
}

/// Whether a release with this version string is checked: never where the
/// skip-list holds the string; else where its version, read without the
/// architecture, is a known one. A version that cannot be read is an error.
pub open spec fn inclusion(
    skipped: Seq<Seq<char>>,
    known: Seq<VersionNumber>,
    version: Seq<char>,
) -> Result<bool, InputError> {
    if skipped.contains(version) {
        Ok(false)
    } else {
        match parsed_version(without_architecture(version)) {
            Some(number) => Ok(known.contains(number)),
            None => Err(InputError::UnparseableVersion),
        }
    }
}

/// Decides whether `release` is checked.
pub fn is_release_in_versions(
    config: &Config,
    versions: &Vec<SemanticVersion>,
    release: &Release,
) -> (included: Result<bool, InputError>)
    ensures
        included == inclusion(config.skipped(), versions.deep_view(), release.version_text()),
{
    let version: &str = release.version();
    if contains_text(&config.skip_list, version) {
        return Ok(false);
    }
    match parse_version(strip_architecture(version)) {
        Some(number) => Ok(is_known(versions, &number)),
        None => Err(InputError::UnparseableVersion),
    }
}

/// The first release whose version cannot be read, and the error.
#[derive(Clone, Copy, Debug, PartialEq, Eq, Structural)]
pub struct SelectionError {
    pub index: usize,
    pub cause: InputError,
}

/// Whether `indices` lists, in rising order, exactly the releases that are checked.
pub open spec fn is_selection(
    indices: Seq<usize>,
    skipped: Seq<Seq<char>>,
    known: Seq<VersionNumber>,
    releases: Seq<Release>,
) -> bool {
    &&& forall|k: int|
        0 <= k < indices.len() ==> (#[trigger] indices[k]) < releases.len() && inclusion(
            skipped,
            known,
            releases[indices[k] as int].version_text(),
        ) == Ok::<bool, InputError>(true)
    &&& forall|i: int|
        0 <= i < releases.len() && inclusion(skipped, known, (#[trigger] releases[i]).version_text())
            == Ok::<bool, InputError>(true) ==> indices.contains(i as usize)
    &&& forall|j: int, k: int| 0 <= j < k < indices.len() ==> indices[j] < indices[k]
}

/// Selects the releases that are checked: their indices in `releases`, in
/// rising order. The first release whose version cannot be read, and that the
/// skip-list does not hold, fails the selection as a whole.
pub fn select_releases(
    config: &Config,
    versions: &Vec<SemanticVersion>,
    releases: &Vec<Release>,
) -> (selected: Result<Vec<usize>, SelectionError>)
    ensures
        match selected {
            Ok(indices) => is_selection(
                indices@,
                config.skipped(),
                versions.deep_view(),
                releases@,
            ) && forall|i: int|
                0 <= i < releases@.len() ==> inclusion(
                    config.skipped(),
                    versions.deep_view(),
                    (#[trigger] releases@[i]).version_text(),
                ) is Ok,
            Err(error) => error.index < releases@.len() && inclusion(
                config.skipped(),
                versions.deep_view(),
                releases@[error.index as int].version_text(),
            ) == Err::<bool, InputError>(error.cause) && forall|i: int|
                0 <= i < error.index ==> inclusion(
                    config.skipped(),
                    versions.deep_view(),
                    (#[trigger] releases@[i]).version_text(),
                ) is Ok,
        },
{
    let mut indices: Vec<usize> = Vec::new();
    let mut index: usize = 0;
    while index < releases.len()
        invariant
            index <= releases@.len(),
            forall|k: int|
                0 <= k < indices@.len() ==> (#[trigger] indices@[k]) < index && inclusion(
                    config.skipped(),
                    versions.deep_view(),
                    releases@[indices@[k] as int].version_text(),
                ) == Ok::<bool, InputError>(true),
            forall|i: int|
                0 <= i < index && inclusion(
                    config.skipped(),
                    versions.deep_view(),
                    (#[trigger] releases@[i]).version_text(),
                ) == Ok::<bool, InputError>(true) ==> indices@.contains(i as usize),
            forall|j: int, k: int| 0 <= j < k < indices@.len() ==> indices@[j] < indices@[k],
            forall|i: int|
                0 <= i < index ==> inclusion(
                    config.skipped(),
                    versions.deep_view(),
                    (#[trigger] releases@[i]).version_text(),
                ) is Ok,
        decreases releases@.len() - index,
    {
        match is_release_in_versions(config, versions, &releases[index]) {
            Ok(included) => {
                if included {
                    let ghost before = indices@;
                    indices.push(index);
                    assert forall|i: int|
                        0 <= i < index + 1 && inclusion(
                            config.skipped(),
                            versions.deep_view(),
                            (#[trigger] releases@[i]).version_text(),
                        ) == Ok::<bool, InputError>(true) implies indices@.contains(
                        i as usize,
                    ) by {
                        if i < index {
                            let k = choose|k: int| 0 <= k < before.len() && before[k] == i as usize;
                            assert(indices@[k] == i as usize);
                        } else {
                            assert(indices@[before.len() as int] == i as usize);
                        }
                    }
                }
            },
            Err(cause) => {
                return Err(SelectionError { index, cause });
            },
        }
        index += 1;
    }
    Ok(indices)
}

/// The search for one release of the catalogue.
pub struct Launch<'a> {
    /// Index of the release in the catalogue.
    pub index: usize,
    /// Where its search stands.
    pub progress: Progress<'a>,
}

/// Starts the search for every release that is checked, and for no other:
/// one search for each selected release, in the order of the catalogue, each
/// as [`Discovery::begin`] starts it. The first release whose version cannot
/// be read, and that the skip-list does not hold, fails the launch as a
/// whole, and no search is started.
pub fn launch<'a>(
    config: &'a Config,
    keyring: &'a Keyring,
    versions: &Vec<SemanticVersion>,
    releases: &Vec<Release>,
) -> (launched: Result<Vec<Launch<'a>>, SelectionError>)
    ensures
        match launched {
            Ok(searches) => is_selection(
                searches@.map_values(|search: Launch<'a>| search.index),
                config.skipped(),
                versions.deep_view(),
                releases@,
            ) && forall|k: int|
                0 <= k < searches@.len() ==> (#[trigger] searches@[k]).progress@ == begun(
                    config.base_url@,
                    config.max_signatures,
                    keyring@,
                    releases@[searches@[k].index as int],
                ),
            Err(error) => error.index < releases@.len() && inclusion(
                config.skipped(),
                versions.deep_view(),
                releases@[error.index as int].version_text(),
            ) == Err::<bool, InputError>(error.cause) && forall|i: int|
                0 <= i < error.index ==> inclusion(
                    config.skipped(),
                    versions.deep_view(),
                    (#[trigger] releases@[i]).version_text(),
                ) is Ok,
        },
{
    let indices: Vec<usize> = match select_releases(config, versions, releases) {
        Ok(indices) => indices,
        Err(error) => {
            return Err(error);
        },
    };
    let mut searches: Vec<Launch<'a>> = Vec::new();
    let mut next: usize = 0;
    while next < indices.len()
        invariant
            next <= indices@.len(),
            searches@.len() == next,
            is_selection(indices@, config.skipped(), versions.deep_view(), releases@),
            forall|k: int| 0 <= k < next ==> (#[trigger] searches@[k]).index == indices@[k],
            forall|k: int|
                0 <= k < next ==> (#[trigger] searches@[k]).progress@ == begun(
                    config.base_url@,
                    config.max_signatures,
                    keyring@,
                    releases@[searches@[k].index as int],
                ),
        decreases indices@.len() - next,
    {
        let index: usize = indices[next];
        let progress = Discovery::begin(config, keyring, &releases[index]);
        searches.push(Launch { index, progress });
        next += 1;
    }
    assert(searches@.map_values(|search: Launch<'a>| search.index) =~= indices@);
    Ok(searches)
}

/// A release whose version string is in the skip-list is never selected,
/// whatever its version reads as, so no candidate is ever asked for on its
/// account.
pub proof fn lemma_skipped_release_is_left_out(
    indices: Seq<usize>,
    skipped: Seq<Seq<char>>,
    known: Seq<VersionNumber>,
    releases: Seq<Release>,
    index: usize,
)
    requires
        is_selection(indices, skipped, known, releases),
        index < releases.len(),
        skipped.contains(releases[index as int].version_text()),
    ensures
        inclusion(skipped, known, releases[index as int].version_text()) == Ok::<bool, InputError>(
            false,
        ),
        !indices.contains(index),
{
    if indices.contains(index) {
        let k = choose|k: int| 0 <= k < indices.len() && indices[k] == index;
        assert(inclusion(skipped, known, releases[indices[k] as int].version_text()) == Ok::<
            bool,
            InputError,
        >(true));
    }
}

/// A release whose version, read without the architecture, is none of the
/// known versions is never selected.
pub proof fn lemma_unknown_release_is_left_out(
    indices: Seq<usize>,
    skipped: Seq<Seq<char>>,
    known: Seq<VersionNumber>,
    releases: Seq<Release>,
    index: usize,
)
    requires
        is_selection(indices, skipped, known, releases),
        index < releases.len(),
        parsed_version(without_architecture(releases[index as int].version_text())) matches Some(
            number,
        ) ==> !known.contains(number),
    ensures
        inclusion(skipped, known, releases[index as int].version_text()) != Ok::<bool, InputError>(
            true,
        ),
        !indices.contains(index),
{
    if indices.contains(index) {
        let k = choose|k: int| 0 <= k < indices.len() && indices[k] == index;
        assert(inclusion(skipped, known, releases[indices[k] as int].version_text()) == Ok::<
            bool,
            InputError,
        >(true));
    }
}

/// The failures among the results of a run, in the order of the results.
pub open spec fn failures_of(results: Seq<Result<(), Failure>>) -> Seq<Failure> {
    results.filter_map(
        |result: Result<(), Failure>|
            match result {
                Ok(_) => None,
                Err(failure) => Some(failure),
            },
    )
}

/// The results of a run with their strings as character sequences.
pub open spec fn results_view(results: Seq<Result<(), ReleaseFailure>>) -> Seq<
    Result<(), Failure>,
> {
    results.map_values(|result: Result<(), ReleaseFailure>| result_view(result))
}

/// The releases for which no valid signature was found.
#[derive(Clone, Debug, PartialEq, Eq)]
pub struct RunFailure {
    pub failures: Vec<ReleaseFailure>,
}

/// Sums up a run: it succeeds where every release did, and fails with the
/// failures of the others, in the order of the results, where one did not.
pub fn aggregate(results: Vec<Result<(), ReleaseFailure>>) -> (summary: Result<(), RunFailure>)
    ensures
        match summary {
            Ok(_) => failures_of(results_view(results@)).len() == 0,
            Err(failure) => failure.failures.deep_view() == failures_of(results_view(results@))
                && failure.failures@.len() > 0,
        },
{
    let ghost all = results_view(results@);
    let mut failures: Vec<ReleaseFailure> = Vec::new();
    assert(all.take(0).filter_map(
        |result: Result<(), Failure>|
            match result {
                Ok(_) => None,
                Err(failure) => Some(failure),
            },
    ) =~= Seq::<Failure>::empty());
    for result in it: results
        invariant
            all == results_view(results@),
            it.seq() == results@,
            failures.deep_view() == failures_of(all.take(it.index() as int)),
    {
        let ghost seen = it.index() as int;
        assert(all.take(seen + 1).drop_last() =~= all.take(seen));
        assert(all.take(seen + 1).last() == result_view(result));
        match result {
            Ok(_) => {},
            Err(failure) => {
                let ghost before = failures.deep_view();
                failures.push(failure);
                assert(failures.deep_view() =~= before + seq![failure@]);
            },
        }
    }
    assert(all.take(results@.len() as int) =~= all);
    if failures.len() == 0 {
        Ok(())
    } else {
        Err(RunFailure { failures })
    }
}

/// A run fails exactly where the search for some release failed.
pub proof fn lemma_run_fails_with_a_failure(results: Seq<Result<(), Failure>>)
    ensures
        failures_of(results).len() == 0 <==> forall|i: int|
            0 <= i < results.len() ==> (#[trigger] results[i]) is Ok,
        failures_of(results).len() <= results.len(),
    decreases results.len(),
{
    if results.len() > 0 {
        let front = results.drop_last();
        lemma_run_fails_with_a_failure(front);
        assert forall|i: int| 0 <= i < front.len() implies front[i] == results[i] by {}
        if forall|i: int| 0 <= i < results.len() ==> (#[trigger] results[i]) is Ok {
            assert(results[results.len() - 1] is Ok);
            assert forall|i: int| 0 <= i < front.len() implies (#[trigger] front[i]) is Ok by {
                assert(results[i] is Ok);
            }
        }
        if failures_of(results).len() == 0 {
            assert forall|i: int| 0 <= i < results.len() implies (#[trigger] results[i])
                is Ok by {
                if i < front.len() {
                    assert(front[i] is Ok);
                }
            }
        }
    }
}

/// The failures of a run are the failures among its results, no more and no
/// fewer: a failure is listed exactly where it is the result of some release.
pub proof fn lemma_failure_is_listed(results: Seq<Result<(), Failure>>, failure: Failure)
    ensures
        failures_of(results).contains(failure) <==> results.contains(Err::<(), Failure>(failure)),
    decreases results.len(),
{
    let wanted = Err::<(), Failure>(failure);
    if results.len() > 0 {
        let front = results.drop_last();
        let last = results.last();
        lemma_failure_is_listed(front, failure);
        assert forall|i: int| 0 <= i < front.len() implies front[i] == results[i] by {}
        if failures_of(results).contains(failure) {
            let k = choose|k: int|
                0 <= k < failures_of(results).len() && failures_of(results)[k] == failure;
            if k < failures_of(front).len() {
                assert(failures_of(front)[k] == failure);
                assert(failures_of(front).contains(failure));
                let i = choose|i: int| 0 <= i < front.len() && front[i] == wanted;
                assert(results[i] == wanted);
            } else {
                assert(last == wanted);
                assert(results[results.len() - 1] == wanted);
            }
        }
        if results.contains(wanted) {
            let i = choose|i: int| 0 <= i < results.len() && results[i] == wanted;
            if i < front.len() {
                assert(front[i] == wanted);
                assert(front.contains(wanted));
                let k = choose|k: int|
                    0 <= k < failures_of(front).len() && failures_of(front)[k] == failure;
                assert(failures_of(results)[k] == failure);
            } else {
                assert(failures_of(results)[failures_of(results).len() - 1] == failure);
            }
        }
    }
}

} // verus!
