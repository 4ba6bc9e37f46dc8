//! The status that every error carries, and what an error reports.
use vstd::prelude::*;

verus! {

/// How a failure should be treated by whoever decides about retrying.
#[derive(Debug, Clone, Copy, PartialEq, Eq, Structural)]
pub enum ErrorStatus {
    /// Retrying cannot help.
    Permanent,
    /// Retrying may help.
    Temporary,
    /// Was retried and still fails.
    Persistent,
}

impl ErrorStatus {
    /// Whether a caller may try the same operation again.
    pub fn is_retryable(&self) -> (r: bool)
        ensures
            r == (*self == ErrorStatus::Temporary),
    {
        match self {
            ErrorStatus::Temporary => true,
            _ => false,
        }
    }
}

/// What an error reports, as mathematics: its message and its status.
pub struct Failure {
    pub message: Seq<char>,
    pub status: ErrorStatus,
}

/// The failure with this message that no retry can mend.
pub open spec fn permanent(message: Seq<char>) -> Failure {
    Failure { message, status: ErrorStatus::Permanent }
}

/// The failure with this message that a retry may mend.
pub open spec fn temporary(message: Seq<char>) -> Failure {
    Failure { message, status: ErrorStatus::Temporary }
}

} // verus!
