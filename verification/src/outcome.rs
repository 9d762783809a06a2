//! Outcomes of a cross-service existence verification, and the decision
//! they force on a dependent write.
//!
//! `Exists` is the only outcome that permits the write. `NotFound` is a
//! confirmed absence and `Unavailable` an unknown state; both block the
//! write, and they are surfaced as distinct errors (404 against 502)
//! because collapsing a confirmed absence into an unknown state, or the
//! reverse, would misreport what is known.

use vstd::prelude::*;

use crate::errors::ApiError;

verus! {

/// What an existence verification against a remote target established.
#[derive(Debug, Clone, Copy, PartialEq, Eq, Structural)]
pub enum CallOutcome {
    /// The remote service answered 2xx: the entity is present.
    Exists,
    /// The remote service answered, but not 2xx: confirmed absence.
    NotFound,
    /// Transport failure, timeout, or an open circuit: unknown state.
    Unavailable,
}

/// The decision a dependent write takes from each outcome.
pub open spec fn spec_write_gate(o: CallOutcome) -> Result<(), ApiError> {
    match o {
        CallOutcome::Exists => Ok(()),
        CallOutcome::NotFound => Err(ApiError::NotFound),
        CallOutcome::Unavailable => Err(ApiError::Unavailable),
    }
}

/// Admits the write exactly when the referenced entity is known to
/// exist; otherwise refuses it with the error owed to the outcome.
pub fn write_gate(o: CallOutcome) -> (r: Result<(), ApiError>)
    ensures
        r == spec_write_gate(o),
        r is Ok <==> o is Exists,
{
    match o {
        CallOutcome::Exists => Ok(()),
        CallOutcome::NotFound => Err(ApiError::NotFound),
        CallOutcome::Unavailable => Err(ApiError::Unavailable),
    }
}

} // verus!
