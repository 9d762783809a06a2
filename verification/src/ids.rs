//! Entity identifiers. A row id is carried as the 128 raw bits of a
//! version-4 identifier; the outside formatter renders those bits as the
//! 36-character hyphenated text that request paths use.

use vstd::prelude::*;

verus! {

/// The hyphenated text of the identifier with the given 128 bits. The
/// rendering is a fixed function of the bits alone; it is given a name
/// here rather than spelled out.
pub uninterp spec fn uuid_text(id: u128) -> Seq<char>;

/// Relies on uuid's `Uuid::from_u128` and hyphenated formatting: the text
/// depends on the bits alone and is always 36 characters long.
#[verifier::external_body]
pub(crate) fn uuid_hyphenated(id: u128) -> (s: String)
    ensures
        s@ == uuid_text(id),
        s@.len() == 36,
{
    uuid::Uuid::from_u128(id).hyphenated().to_string()
}

/// Relies on uuid's `Uuid::new_v4`: a freshly drawn random identifier,
/// of which nothing is promised.
#[verifier::external_body]
pub(crate) fn fresh_uuid() -> (id: u128) {
    uuid::Uuid::new_v4().as_u128()
}

} // verus!
