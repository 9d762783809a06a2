//! The error taxonomy that every protected endpoint surfaces, and the
//! HTTP status code owed to each member of it.

use vstd::prelude::*;

verus! {

/// Why a request was refused, or why a local write could not be completed.
///
/// `NotFound` covers both a locally absent row and a confirmed remote
/// absence; `Unavailable` covers a transport failure, a timeout and an
/// open circuit, which are unknown states rather than confirmed absences,
/// and so must never be collapsed into `NotFound`.
#[derive(Debug, Clone, Copy, PartialEq, Eq, Structural)]
pub enum ApiError {
    /// Missing, malformed, badly signed or expired credential.
    Unauthenticated,
    /// The credential is valid but its role is not in the allowed set.
    Forbidden,
    /// A local row is absent, or the remote service confirmed absence.
    NotFound,
    /// The remote target could not be reached, or its circuit is open.
    Unavailable,
    /// The local write failed; details stay server-side.
    PersistenceFailure,
    /// A liveness or readiness dependency is down.
    NotReady,
}

/// The HTTP status code for each error.
pub open spec fn spec_status_code(e: ApiError) -> u16 {
    match e {
        ApiError::Unauthenticated => 401,
        ApiError::Forbidden => 403,
        ApiError::NotFound => 404,
        ApiError::Unavailable => 502,
        ApiError::PersistenceFailure => 500,
        ApiError::NotReady => 503,
    }
}

/// Maps each error to the status code the service answers with.
pub fn status_code(e: &ApiError) -> (code: u16)
    ensures
        code == spec_status_code(*e),
{
    match e {
        ApiError::Unauthenticated => 401,
        ApiError::Forbidden => 403,
        ApiError::NotFound => 404,
        ApiError::Unavailable => 502,
        ApiError::PersistenceFailure => 500,
        ApiError::NotReady => 503,
    }
}

/// Maps the fate of the local write that follows a permitted request:
/// a failed write surfaces as `PersistenceFailure`, with its detail kept
/// server-side.
pub fn persistence_gate(write_ok: bool) -> (r: Result<(), ApiError>)
    ensures
        r == if write_ok {
            Ok::<(), ApiError>(())
        } else {
            Err::<(), ApiError>(ApiError::PersistenceFailure)
        },
{
    if write_ok {
        Ok(())
    } else {
        Err(ApiError::PersistenceFailure)
    }
}

/// Maps a readiness probe of a dependency: a failed probe surfaces as
/// `NotReady`.
pub fn readiness_gate(dependency_ok: bool) -> (r: Result<(), ApiError>)
    ensures
        r == if dependency_ok {
            Ok::<(), ApiError>(())
        } else {
            Err::<(), ApiError>(ApiError::NotReady)
        },
{
    if dependency_ok {
        Ok(())
    } else {
        Err(ApiError::NotReady)
    }
}

} // verus!
