//! The failures that the service distinguishes.

use vstd::prelude::*;

verus! {

/// Why a request could not be served.
#[derive(Debug, Clone, Copy, PartialEq, Eq, Structural)]
pub enum ServiceError {
    /// The client's input was malformed or incomplete.
    BadRequest,
    /// A stored row does not decode to a todo: its identifier or its
    /// creation time is not in the storage format.
    MalformedRecord,
    /// The store refused a statement, or could not be reached.
    StorageFailure,
}

impl ServiceError {
    /// The HTTP status that stands for this failure at the boundary: a
    /// client's mistake is 400, every internal fault is 500.
    pub open spec fn spec_status_code(self) -> u16 {
        match self {
            ServiceError::BadRequest => 400,
            _ => 500,
        }
    }

    /// Computes [`ServiceError::spec_status_code`].
    #[verifier::when_used_as_spec(spec_status_code)]
    pub fn status_code(self) -> (status: u16)
        ensures
            status == self.spec_status_code(),
    {
        match self {
            ServiceError::BadRequest => 400,
            ServiceError::MalformedRecord => 500,
            ServiceError::StorageFailure => 500,
        }
    }
}

} // verus!
