//! The admin service's slice: courses. Creation is open to Admin alone;
//! reading is open to Admin and — solely so that the teacher service can
//! verify a course's existence before a dependent write — to Teacher.

use vstd::prelude::*;

use crate::auth::AuthUser;
use crate::auth::Role;
use crate::clock::now_millis;
use crate::errors::ApiError;
use crate::ids::fresh_uuid;
use crate::policy::AccessPolicy;

verus! {

/// The body of a course-creation request.
pub struct CreateCourseBody {
    pub name: String,
}

/// A course row: identifier bits, name, and creation instant in unix
/// milliseconds.
pub struct Course {
    pub id: u128,
    pub name: String,
    pub created_at_ms: u64,
}

/// The set allowed to create courses: Admin alone.
pub fn course_write_policy() -> (p: AccessPolicy)
    ensures
        p == (AccessPolicy { admin: true, teacher: false, student: false }),
{
    AccessPolicy { admin: true, teacher: false, student: false }
}

/// The set allowed to read a course: Admin, and Teacher for existence
/// checks ahead of assignment creation.
pub fn course_read_policy() -> (p: AccessPolicy)
    ensures
        p == (AccessPolicy { admin: true, teacher: true, student: false }),
{
    AccessPolicy { admin: true, teacher: true, student: false }
}

/// The first stage of course creation: only Admin may proceed.
pub fn create_course_authorize(user: &AuthUser) -> (r: Result<(), ApiError>)
    ensures
        r == if user.0.role is Admin {
            Ok::<(), ApiError>(())
        } else {
            Err::<(), ApiError>(ApiError::Forbidden)
        },
{
    course_write_policy().authorize(user)
}

/// Builds the course row an authorized creation persists: a fresh
/// identifier, the requested name, and the present instant.
pub fn create_course(body: CreateCourseBody) -> (c: Course)
    ensures
        c.name == body.name,
{
    let id = fresh_uuid();
    let now = now_millis();
    Course { id, name: body.name, created_at_ms: now }
}

/// The first stage of a course read: Admin or Teacher may proceed.
pub fn get_course_authorize(user: &AuthUser) -> (r: Result<(), ApiError>)
    ensures
        r == if user.0.role is Admin || user.0.role is Teacher {
            Ok::<(), ApiError>(())
        } else {
            Err::<(), ApiError>(ApiError::Forbidden)
        },
{
    course_read_policy().authorize(user)
}

/// The second stage of a course read: an absent row is `NotFound`.
pub fn found_course(row: Option<Course>) -> (r: Result<Course, ApiError>)
    ensures
        row is None ==> r == Err::<Course, ApiError>(ApiError::NotFound),
        row matches Some(c) ==> r == Ok::<Course, ApiError>(c),
{
    match row {
        None => Err(ApiError::NotFound),
        Some(c) => Ok(c),
    }
}

} // verus!
