//! What a call of the bridge returns to its caller.

use vstd::prelude::*;

verus! {

/// Why a call failed. The kinds are told apart by what went wrong, so that a
/// caller can report a refused connection differently from an error status.
#[derive(Clone, Copy, Debug, PartialEq, Eq, Structural)]
pub enum FailureKind {
    /// The request did not reach the endpoint, or no response came back.
    Transport,
    /// The endpoint answered with a status outside the success range.
    Status,
    /// The request body could not be written, or the response body could not
    /// be read as text.
    Decode,
    /// The caller gave up waiting and the request was abandoned.
    Cancelled,
}

/// The result of one call: the response body, or the cause of the failure.
#[derive(Clone, Debug, PartialEq, Eq)]
pub enum Outcome {
    /// The endpoint answered with a success status; this is the body it sent,
    /// as it came.
    Success(String),
    /// The call failed.
    Failure {
        /// What went wrong.
        kind: FailureKind,
        /// A description for a human reader.
        reason: String,
    },
}

/// The mathematical model of an [`Outcome`].
pub enum OutcomeView {
    Success(Seq<char>),
    Failure { kind: FailureKind, reason: Seq<char> },
}

impl View for Outcome {
    type V = OutcomeView;

    open spec fn view(&self) -> OutcomeView {
        match self {
            Outcome::Success(body) => OutcomeView::Success(body@),
            Outcome::Failure { kind, reason } => OutcomeView::Failure {
                kind: *kind,
                reason: reason@,
            },
        }
    }
}

/// The reason given when the envelope could not be serialized.
pub const SERIALIZATION_ERROR: &'static str = "serialization error";

/// The reason given when the caller cancelled the call.
pub const CANCELLED: &'static str = "request cancelled";

/// The reason given when a response body is not text.
pub const UNREADABLE_BODY: &'static str = "response body is not text";

impl Outcome {
    /// A failure of the given kind.
    pub fn failure(kind: FailureKind, reason: &str) -> (outcome: Outcome)
        ensures
            outcome@ == (OutcomeView::Failure { kind, reason: reason@ }),
    {
        Outcome::Failure { kind, reason: String::from_str(reason) }
    }

    /// Whether the call succeeded.
    pub fn is_success(&self) -> (yes: bool)
        ensures
            yes == (self@ is Success),
    {
        match self {
            Outcome::Success(_) => true,
            Outcome::Failure { .. } => false,
        }
    }
}

} // verus!
