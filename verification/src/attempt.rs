//! What can go wrong with the candidate signature of one slot.

use vstd::prelude::*;

verus! {

/// Why the candidate of one slot did not vouch for the release.
#[derive(Clone, Debug, PartialEq, Eq)]
pub enum AttemptError {
    /// No location could be derived for the slot.
    Location,
    /// The request did not get an answer.
    Transport { url: String, reason: String },
    /// The store answered with a status that is no success.
    Status { url: String, status: u16 },
    /// The candidate is no readable signed message.
    Parse,
    /// No key of the keyring validates the signature of the candidate.
    Untrusted,
    /// The signed message carries nothing.
    EmptyContent,
    /// The signed content is no record that names a digest.
    Undecodable,
    /// A trusted key signed the candidate, for another digest than the expected one.
    DigestMismatch { actual: String },
}

/// An [`AttemptError`] with its strings as character sequences.
pub ghost enum Fault {
    Location,
    Transport { url: Seq<char>, reason: Seq<char> },
    Status { url: Seq<char>, status: u16 },
    Parse,
    Untrusted,
    EmptyContent,
    Undecodable,
    DigestMismatch { actual: Seq<char> },
}

impl View for AttemptError {
    type V = Fault;

    open spec fn view(&self) -> Fault {
        match self {
            AttemptError::Location => Fault::Location,
            AttemptError::Transport { url, reason } => Fault::Transport {
                url: url@,
                reason: reason@,
            },
            AttemptError::Status { url, status } => Fault::Status { url: url@, status: *status },
            AttemptError::Parse => Fault::Parse,
            AttemptError::Untrusted => Fault::Untrusted,
            AttemptError::EmptyContent => Fault::EmptyContent,
            AttemptError::Undecodable => Fault::Undecodable,
            AttemptError::DigestMismatch { actual } => Fault::DigestMismatch { actual: actual@ },
        }
    }
}

impl DeepView for AttemptError {
    type V = Fault;

    open spec fn deep_view(&self) -> Fault {
        self@
    }
}

/// The outcome of one attempt, with its strings as character sequences.
pub open spec fn outcome_view(outcome: Result<(), AttemptError>) -> Result<(), Fault> {
    match outcome {
        Ok(_) => Ok(()),
        Err(error) => Err(error@),
    }
}

} // verus!
