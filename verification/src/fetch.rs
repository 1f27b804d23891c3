//! What the answer to a request for a candidate signature is worth.

use vstd::prelude::*;
use vstd::string::*;
use crate::attempt::AttemptError;
use crate::attempt::Fault;

verus! {

/// What came back from one request for a candidate signature.
#[derive(Clone, Debug, PartialEq, Eq)]
pub enum FetchResponse {
    /// The request failed before the store answered, or the answer could not be read.
    Failed { reason: String },
    /// The store answered with this status; `body` is what it sent.
    Answered { status: u16, body: Vec<u8> },
}

/// Whether a status is a success: the codes from 200 to 299.
pub open spec fn is_success_status(status: u16) -> bool {
    200 <= status < 300
}

/// Whether a status is a success: the codes from 200 to 299.
pub fn is_success(status: u16) -> (success: bool)
    ensures
        success == is_success_status(status),
{
    200 <= status && status < 300
}

/// What a response from `url` gives: the body, or the error to record.
pub open spec fn fetched(url: Seq<char>, response: FetchResponse) -> Result<Seq<u8>, Fault> {
    match response {
        FetchResponse::Failed { reason } => Err(Fault::Transport { url, reason: reason@ }),
        FetchResponse::Answered { status, body } => if is_success_status(status) {
            Ok(body@)
        } else {
            Err(Fault::Status { url, status })
        },
    }
}

/// Turns the response to a request for `url` into the body of the candidate,
/// or into the error that the attempt records.
pub fn fetch_outcome(url: &str, response: FetchResponse) -> (outcome: Result<
    Vec<u8>,
    AttemptError,
>)
    ensures
        match outcome {
            Ok(body) => fetched(url@, response) == Ok::<Seq<u8>, Fault>(body@),
            Err(error) => fetched(url@, response) == Err::<Seq<u8>, Fault>(error@),
        },
{
    match response {
        FetchResponse::Failed { reason } => Err(
            AttemptError::Transport { url: String::from_str(url), reason },
        ),
        FetchResponse::Answered { status, body } => if is_success(status) {
            Ok(body)
        } else {
            Err(AttemptError::Status { url: String::from_str(url), status })
        },
    }
}

} // verus!
