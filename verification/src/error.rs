//! The ways in which a call into the library or an attempt on the service
//! can fail.

use vstd::prelude::*;

verus! {

/// Why an operation did not go through.
#[derive(Debug, Clone, Copy, PartialEq, Eq, Structural)]
pub enum ApiError {
    /// The goal map could not be had: the service did not answer with
    /// success, or its answer is not a rectangular table of labels under
    /// `goal`. Asking again would not mend it, so it is never retried.
    GoalUnavailable,
    /// The object cannot be used for the operation: empty space, or an
    /// object to place that lacks its attribute.
    UnsupportedKind,
    /// One attempt to place or remove an object failed in transit or was
    /// answered without success. The run absorbs it and tries again.
    TransientTransport,
}

/// The message of an error.
pub open spec fn error_message(error: ApiError) -> Seq<char> {
    match error {
        ApiError::GoalUnavailable => "The goal map is unavailable."@,
        ApiError::UnsupportedKind => "The object type is not supported by this operation."@,
        ApiError::TransientTransport => "The request failed and is retried."@,
    }
}

impl ApiError {
    /// The message of the error, for a person to read.
    pub fn message(&self) -> (r: &'static str)
        ensures
            r@ == error_message(*self),
    {
        match self {
            ApiError::GoalUnavailable => "The goal map is unavailable.",
            ApiError::UnsupportedKind => "The object type is not supported by this operation.",
            ApiError::TransientTransport => "The request failed and is retried.",
        }
    }
}

} // verus!
