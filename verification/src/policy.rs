//! Role-based authorization: an endpoint's allowed role set, with OR
//! membership. A set may hold more than one role on purpose: some read
//! endpoints accept a second role solely so that another service can run
//! an existence check with the caller's forwarded credential.

use vstd::prelude::*;

use crate::auth::AuthUser;
use crate::auth::Role;
use crate::errors::ApiError;

verus! {

/// The set of roles an endpoint accepts.
#[derive(Debug, Clone, Copy, PartialEq, Eq, Structural)]
pub struct AccessPolicy {
    pub admin: bool,
    pub teacher: bool,
    pub student: bool,
}

impl AccessPolicy {
    /// Whether the role is a member of the allowed set.
    pub open spec fn spec_permits(&self, r: Role) -> bool {
        match r {
            Role::Admin => self.admin,
            Role::Teacher => self.teacher,
            Role::Student => self.student,
        }
    }

    /// Membership test for one role.
    pub fn permits(&self, r: &Role) -> (ok: bool)
        ensures
            ok == self.spec_permits(*r),
    {
        match r {
            Role::Admin => self.admin,
            Role::Teacher => self.teacher,
            Role::Student => self.student,
        }
    }

    /// Allows the credential exactly when its role is in the set;
    /// otherwise refuses it as `Forbidden`.
    pub fn authorize(&self, user: &AuthUser) -> (r: Result<(), ApiError>)
        ensures
            r == if self.spec_permits(user.0.role) {
                Ok::<(), ApiError>(())
            } else {
                Err::<(), ApiError>(ApiError::Forbidden)
            },
    {
        if self.permits(&user.0.role) {
            Ok(())
        } else {
            Err(ApiError::Forbidden)
        }
    }
}

/// Law: a credential with role Student is refused by the policy that
/// requires only Admin, and accepted by every policy whose set contains
/// Student.
pub proof fn lemma_student_membership(p: AccessPolicy)
    ensures
        (p.admin && !p.teacher && !p.student) ==> !p.spec_permits(Role::Student),
        p.student ==> p.spec_permits(Role::Student),
{
}

} // verus!
