//! The teacher service's slice: assignments. Creating one references a
//! course owned by the admin service, so it is the dependent-write path:
//! Teacher role, then an existence verification of the course against
//! the admin target, and only on `Exists` the local write. Reading is
//! open to Teacher and — solely so that the student service can verify
//! an assignment's existence before a submission — to Student.

use vstd::prelude::*;

use crate::auth::AuthUser;
use crate::auth::Role;
use crate::clock::now_millis;
use crate::errors::ApiError;
use crate::ids::fresh_uuid;
use crate::ids::uuid_hyphenated;
use crate::ids::uuid_text;
use crate::outcome::CallOutcome;
use crate::outcome::write_gate;
use crate::policy::AccessPolicy;

verus! {

/// The body of an assignment-creation request.
pub struct CreateAssignmentBody {
    pub title: String,
}

/// An assignment row: identifier bits, the course it belongs to, title,
/// and creation instant in unix milliseconds.
pub struct Assignment {
    pub id: u128,
    pub course_id: u128,
    pub title: String,
    pub created_at_ms: u64,
}

/// The set allowed to create assignments: Teacher alone.
pub fn assignment_write_policy() -> (p: AccessPolicy)
    ensures
        p == (AccessPolicy { admin: false, teacher: true, student: false }),
{
    AccessPolicy { admin: false, teacher: true, student: false }
}

/// The set allowed to read an assignment: Teacher, and Student for
/// existence checks ahead of a submission.
pub fn assignment_read_policy() -> (p: AccessPolicy)
    ensures
        p == (AccessPolicy { admin: false, teacher: true, student: true }),
{
    AccessPolicy { admin: false, teacher: true, student: true }
}

/// The read path on the admin target that verifies a course exists. The
/// caller's credential is forwarded along with it unchanged, so the
/// admin service re-applies its own policy to the original caller.
pub fn course_probe_path(course_id: u128) -> (p: String)
    ensures
        p@ == "/api/admin/courses/"@ + uuid_text(course_id),
{
    let mut p = String::from_str("/api/admin/courses/");
    let id_text = uuid_hyphenated(course_id);
    p.append(id_text.as_str());
    p
}

/// The first stage of assignment creation: only Teacher may proceed.
/// A refusal here short-circuits the request before any remote call.
pub fn create_assignment_authorize(user: &AuthUser) -> (r: Result<(), ApiError>)
    ensures
        r == if user.0.role is Teacher {
            Ok::<(), ApiError>(())
        } else {
            Err::<(), ApiError>(ApiError::Forbidden)
        },
{
    assignment_write_policy().authorize(user)
}

/// The dependent-write decision of assignment creation, after the role
/// was allowed and the course verification produced `outcome`: a
/// confirmed absence is `NotFound`, an unknown state is `Unavailable`,
/// and only a confirmed existence yields the row to persist — a fresh
/// identifier, the referenced course, the requested title, and the
/// present instant.
pub fn create_assignment(course_id: u128, body: CreateAssignmentBody, outcome: CallOutcome) -> (r:
    Result<Assignment, ApiError>)
    ensures
        outcome is NotFound ==> r == Err::<Assignment, ApiError>(ApiError::NotFound),
        outcome is Unavailable ==> r == Err::<Assignment, ApiError>(ApiError::Unavailable),
        outcome is Exists ==> (r matches Ok(a) && a.course_id == course_id && a.title == body.title),
{
    match write_gate(outcome) {
        Err(e) => Err(e),
        Ok(()) => {
            let id = fresh_uuid();
            let now = now_millis();
            Ok(Assignment { id, course_id, title: body.title, created_at_ms: now })
        },
    }
}

/// The first stage of an assignment read: Teacher or Student may
/// proceed.
pub fn get_assignment_authorize(user: &AuthUser) -> (r: Result<(), ApiError>)
    ensures
        r == if user.0.role is Teacher || user.0.role is Student {
            Ok::<(), ApiError>(())
        } else {
            Err::<(), ApiError>(ApiError::Forbidden)
        },
{
    assignment_read_policy().authorize(user)
}

/// The second stage of an assignment read: an absent row is `NotFound`.
pub fn found_assignment(row: Option<Assignment>) -> (r: Result<Assignment, ApiError>)
    ensures
        row is None ==> r == Err::<Assignment, ApiError>(ApiError::NotFound),
        row matches Some(a) ==> r == Ok::<Assignment, ApiError>(a),
{
    match row {
        None => Err(ApiError::NotFound),
        Some(a) => Ok(a),
    }
}

} // verus!
