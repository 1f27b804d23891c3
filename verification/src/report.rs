//! The wording of failures, for people who read the outcome of a run.

use vstd::prelude::*;
use vstd::string::*;
use crate::attempt::AttemptError;
use crate::attempt::Fault;
use crate::catalogue::RunFailure;
use crate::discovery::Failure;
use crate::discovery::ReleaseFailure;
use crate::text::decimal;
use crate::text::decimal_text;

verus! {

/// The wording of the error of one attempt.
pub open spec fn fault_text(fault: Fault) -> Seq<char> {
    match fault {
        Fault::Location => "No location for the signature"@,
        Fault::Transport { url, reason } => "Error fetching "@ + url + " - "@ + reason,
        Fault::Status { url, status } => "Error fetching "@ + url + " - "@ + decimal(
            status as nat,
        ),
        Fault::Parse => "Parsing message"@,
        Fault::Untrusted => "No matching key found"@,
        Fault::EmptyContent => "Empty message received"@,
        Fault::Undecodable => "Deserializing message"@,
        Fault::DigestMismatch { actual } => "Valid signature, but digest mismatches: "@ + actual,
    }
}

/// The wording of the errors of the slots: each on a line of its own,
/// indented, in the order of the slots.
pub open spec fn trail_text(faults: Seq<Fault>) -> Seq<char>
    decreases faults.len(),
{
    if faults.len() == 0 {
        Seq::empty()
    } else {
        trail_text(faults.drop_last()) + "\n    "@ + fault_text(faults.last())
    }
}

/// The wording of the failure of one release.
pub open spec fn failure_text(failure: Failure) -> Seq<char> {
    match failure {
        Failure::NotConcrete { version } => version + ": not a concrete release"@,
        Failure::MissingDigest { version, payload } => version + ": could not parse payload '"@
            + payload + "'"@,
        Failure::Exhausted { version, payload, errors } => "Failed to verify signature for "@
            + version + " - "@ + payload + ":"@ + trail_text(errors),
    }
}

/// The wording of the failures of a run, each behind a line break.
pub open spec fn failures_text(failures: Seq<Failure>) -> Seq<char>
    decreases failures.len(),
{
    if failures.len() == 0 {
        Seq::empty()
    } else {
        failures_text(failures.drop_last()) + "\n"@ + failure_text(failures.last())
    }
}

/// The wording of a failed run.
pub open spec fn run_text(failures: Seq<Failure>) -> Seq<char> {
    "Signature check errors:"@ + failures_text(failures)
}

impl AttemptError {
    /// Words the error.
    pub fn describe(&self) -> (text: String)
        ensures
            text@ == fault_text(self@),
    {
        match self {
            AttemptError::Location => String::from_str("No location for the signature"),
            AttemptError::Transport { url, reason } => {
                let mut text: String = String::from_str("Error fetching ");
                text.append(url.as_str());
                text.append(" - ");
                text.append(reason.as_str());
                text
            },
            AttemptError::Status { url, status } => {
                let mut text: String = String::from_str("Error fetching ");
                text.append(url.as_str());
                text.append(" - ");
                text.append(decimal_text(*status as u64).as_str());
                text
            },
            AttemptError::Parse => String::from_str("Parsing message"),
            AttemptError::Untrusted => String::from_str("No matching key found"),
            AttemptError::EmptyContent => String::from_str("Empty message received"),
            AttemptError::Undecodable => String::from_str("Deserializing message"),
            AttemptError::DigestMismatch { actual } => {
                let mut text: String = String::from_str(
                    "Valid signature, but digest mismatches: ",
                );
                text.append(actual.as_str());
                text
            },
        }
    }
}

/// Words the errors of the slots, each on a line of its own.
fn describe_trail(errors: &Vec<AttemptError>) -> (text: String)
    ensures
        text@ == trail_text(errors.deep_view()),
{
    let mut text: String = String::new();
    let mut index: usize = 0;
    assert(errors.deep_view().take(0) =~= Seq::<Fault>::empty());
    while index < errors.len()
        invariant
            index <= errors.len(),
            text@ == trail_text(errors.deep_view().take(index as int)),
        decreases errors.len() - index,
    {
        assert(errors.deep_view().take(index + 1).drop_last() =~= errors.deep_view().take(
            index as int,
        ));
        text.append("\n    ");
        text.append(errors[index].describe().as_str());
        index += 1;
    }
    assert(errors.deep_view().take(errors.len() as int) =~= errors.deep_view());
    text
}

impl ReleaseFailure {
    /// Words the failure: the release, and for a search that ran out of
    /// slots the error of every slot.
    pub fn describe(&self) -> (text: String)
        ensures
            text@ == failure_text(self@),
    {
        match self {
            ReleaseFailure::NotConcrete { version } => {
                let mut text: String = version.clone();
                text.append(": not a concrete release");
                text
            },
            ReleaseFailure::MissingDigest { version, payload } => {
                let mut text: String = version.clone();
                text.append(": could not parse payload '");
                text.append(payload.as_str());
                text.append("'");
                text
            },
            ReleaseFailure::Exhausted { version, payload, errors } => {
                let mut text: String = String::from_str("Failed to verify signature for ");
                text.append(version.as_str());
                text.append(" - ");
                text.append(payload.as_str());
                text.append(":");
                text.append(describe_trail(errors).as_str());
                text
            },
        }
    }
}

impl RunFailure {
    /// Words the failed run: a heading, and the failure of every release
    /// behind it.
    pub fn describe(&self) -> (text: String)
        ensures
            text@ == run_text(self.failures.deep_view()),
    {
        let mut text: String = String::from_str("Signature check errors:");
        let mut index: usize = 0;
        let ghost heading = text@;
        assert(self.failures.deep_view().take(0) =~= Seq::<Failure>::empty());
        assert(text@ =~= heading + failures_text(self.failures.deep_view().take(0)));
        while index < self.failures.len()
            invariant
                index <= self.failures.len(),
                heading == "Signature check errors:"@,
                text@ == heading + failures_text(self.failures.deep_view().take(index as int)),
            decreases self.failures.len() - index,
        {
            assert(self.failures.deep_view().take(index + 1).drop_last()
                =~= self.failures.deep_view().take(index as int));
            let ghost before = text@;
            text.append("\n");
            text.append(self.failures[index].describe().as_str());
            assert(text@ =~= heading + failures_text(
                self.failures.deep_view().take(index + 1),
            ));
            index += 1;
        }
        assert(self.failures.deep_view().take(self.failures.len() as int)
            =~= self.failures.deep_view());
        text
    }
}

} // verus!
