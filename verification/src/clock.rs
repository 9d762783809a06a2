//! The wall clock. Every decision in the library takes an instant as an
//! explicit argument; this is the one place where an instant is read.

use vstd::prelude::*;

verus! {

/// Relies on chrono's `Utc::now` and `timestamp_millis`: the present
/// instant in milliseconds, of which nothing is promised.
#[verifier::external_body]
pub(crate) fn now_millis() -> (t: u64) {
    chrono::Utc::now().timestamp_millis() as u64
}

} // verus!
