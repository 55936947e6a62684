//! The ways a request can fail.

use vstd::prelude::*;

verus! {

/// A failed request. Every failure ends the request: nothing is retried and
/// nothing is applied in part.
#[derive(Debug)]
pub enum ServiceError {
    /// The request body was not a well-formed sequence of readings. `reason`
    /// says what was wrong with it.
    Validation { reason: String },
    /// The shared counter could not be acquired.
    Internal,
}

/// The HTTP status that reports `error`: 400 for a validation error, 500 for
/// an internal one.
pub open spec fn status_of(error: ServiceError) -> nat {
    match error {
        ServiceError::Validation { .. } => 400,
        ServiceError::Internal => 500,
    }
}

impl ServiceError {
    /// The HTTP status to answer with: a client error for a request that
    /// failed validation, a server error otherwise.
    pub fn status_code(&self) -> (code: u16)
        ensures
            code == status_of(*self),
            self is Validation ==> 400 <= code < 500,
            self is Internal ==> 500 <= code < 600,
    {
        match self {
            ServiceError::Validation { .. } => 400,
            ServiceError::Internal => 500,
        }
    }

    /// A tag that names the kind of failure in an error body.
    pub fn kind(&self) -> (tag: String)
        ensures
            self is Validation ==> tag@ == "validation_error"@,
            self is Internal ==> tag@ == "internal_error"@,
    {
        match self {
            ServiceError::Validation { .. } => "validation_error".to_string(),
            ServiceError::Internal => "internal_error".to_string(),
        }
    }

    /// What went wrong, in words: the reason a body was rejected, or a fixed
    /// sentence for an internal error.
    pub fn message(&self) -> (text: String)
        ensures
            self matches ServiceError::Validation { reason } ==> text@ == reason@,
            self is Internal ==> text@ == "the shared counter could not be acquired"@,
    {
        match self {
            ServiceError::Validation { reason } => reason.clone(),
            ServiceError::Internal => "the shared counter could not be acquired".to_string(),
        }
    }
}

} // verus!
