//! The failure kinds that callers of the library see.

use vstd::prelude::*;

verus! {

/// Failures as reported to a caller; none carries store-specific detail.
#[derive(Debug, PartialEq, Eq)]
pub enum ServiceError {
    /// No session on a guarded operation, or a failed credential check.
    Unauthorized,
    /// Malformed input, or a write that failed for a reason other than absence.
    BadRequest(String),
    /// No row matches the requested id.
    NotFound,
    /// An unexpected store or transaction failure.
    InternalServerError,
}

impl ServiceError {
    /// The HTTP status code that this failure is answered with.
    pub fn status_code(&self) -> (r: u16)
        ensures
            r == match self {
                ServiceError::Unauthorized => 401u16,
                ServiceError::BadRequest(_) => 400u16,
                ServiceError::NotFound => 404u16,
                ServiceError::InternalServerError => 500u16,
            },
    {
        match self {
            ServiceError::Unauthorized => 401,
            ServiceError::BadRequest(_) => 400,
            ServiceError::NotFound => 404,
            ServiceError::InternalServerError => 500,
        }
    }
}

} // verus!
