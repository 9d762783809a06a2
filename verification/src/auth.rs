//! Token-based authentication: the shape of a verified credential, the
//! extraction of the bearer token from an Authorization header, and the
//! decision that turns a cryptographic decode's outcome into a
//! credential or an `Unauthenticated` refusal.
//!
//! The cryptographic check itself (signature against the configured
//! secret) is the platform's; it hands this module either the decoded
//! claims or nothing. Everything decidable from plain values — the
//! header scheme, the expiry against the present instant — is decided
//! here.

use vstd::prelude::*;

use crate::errors::ApiError;

verus! {

/// The role a credential carries: always one of this closed set.
#[derive(Debug, Clone, Copy, PartialEq, Eq, Structural)]
pub enum Role {
    Admin,
    Teacher,
    Student,
}

/// The lowercase spelling of each role, as tokens carry it.
pub open spec fn spec_role_name(r: Role) -> Seq<char> {
    match r {
        Role::Admin => "admin"@,
        Role::Teacher => "teacher"@,
        Role::Student => "student"@,
    }
}

impl Role {
    /// The lowercase name of the role.
    pub fn name(&self) -> (s: String)
        ensures
            s@ == spec_role_name(*self),
    {
        match self {
            Role::Admin => String::from_str("admin"),
            Role::Teacher => String::from_str("teacher"),
            Role::Student => String::from_str("student"),
        }
    }
}

/// The claims of a verified token: subject, role, expiry as a unix
/// timestamp in seconds, and an optional issuer.
pub struct Claims {
    pub sub: String,
    pub role: Role,
    pub exp: i64,
    pub iss: Option<String>,
}

/// The caller's identity for one request, derived from a verified token.
pub struct AuthUser(pub Claims);

/// The scheme prefix an Authorization header must carry.
pub open spec fn spec_bearer_prefix() -> Seq<char> {
    "Bearer "@
}

/// Pulls the token out of an Authorization header value: the part after
/// the "Bearer " scheme prefix, or nothing when the header does not use
/// that scheme.
pub fn bearer_token(header: &str) -> (r: Option<String>)
    ensures
        (r is Some) == (header@.len() >= 7 && header@.subrange(0, 7) == spec_bearer_prefix()),
        r matches Some(t) ==> t@ == header@.subrange(7, header@.len() as int),
{
    let n = header.unicode_len();
    if n < 7 {
        None
    } else {
        let prefix = String::from_str(header.substring_char(0, 7));
        let expected = String::from_str("Bearer ");
        if prefix == expected {
            Some(String::from_str(header.substring_char(7, n)))
        } else {
            None
        }
    }
}

/// What authentication answers, given the outcome of the cryptographic
/// decode and the present instant: no claims (missing header, wrong
/// scheme, malformed token, bad signature) or an expiry not in the
/// future are refused as `Unauthenticated`; otherwise the claims become
/// the request's credential.
pub open spec fn spec_authenticate(decoded: Option<Claims>, now_unix: i64) -> Result<
    AuthUser,
    ApiError,
> {
    match decoded {
        None => Err(ApiError::Unauthenticated),
        Some(c) => if c.exp <= now_unix {
            Err(ApiError::Unauthenticated)
        } else {
            Ok(AuthUser(c))
        },
    }
}

/// Completes authentication over the decode's outcome.
pub fn authenticate(decoded: Option<Claims>, now_unix: i64) -> (r: Result<AuthUser, ApiError>)
    ensures
        r == spec_authenticate(decoded, now_unix),
{
    match decoded {
        None => Err(ApiError::Unauthenticated),
        Some(c) => if c.exp <= now_unix {
            Err(ApiError::Unauthenticated)
        } else {
            Ok(AuthUser(c))
        },
    }
}

/// Law: a token whose expiry is not in the future is refused as
/// `Unauthenticated` independently of what the signature check said.
/// Claims that failed the check arrive as `None`; claims that passed it
/// arrive with their expiry; under the premise that any claims present
/// are expired, both paths are refused alike.
pub proof fn lemma_expired_token_refused(decoded: Option<Claims>, now_unix: i64)
    requires
        decoded matches Some(c) ==> c.exp <= now_unix,
    ensures
        spec_authenticate(decoded, now_unix) == Err::<AuthUser, ApiError>(
            ApiError::Unauthenticated,
        ),
{
}

} // verus!
