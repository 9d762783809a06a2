//! The student service's slice: submissions. Creating one references an
//! assignment owned by the teacher service, so it is the other
//! dependent-write path: Student role, then an existence verification of
//! the assignment against the teacher target, and only on `Exists` the
//! local write.

use vstd::prelude::*;

use crate::auth::AuthUser;
use crate::auth::Role;
use crate::clock::now_millis;
use crate::errors::ApiError;
use crate::ids::fresh_uuid;
use crate::ids::uuid_hyphenated;
use crate::ids::uuid_text;
use crate::outcome::CallOutcome;
use crate::outcome::write_gate;
use crate::policy::AccessPolicy;

verus! {

/// The body of a submission request; the content is optional.
pub struct CreateSubmissionBody {
    pub content: Option<String>,
}

/// A submission row: identifier bits, the assignment it answers, the
/// submitting student, the optional content, and the creation instant in
/// unix milliseconds.
pub struct Submission {
    pub id: u128,
    pub assignment_id: u128,
    pub student_id: String,
    pub content: Option<String>,
    pub created_at_ms: u64,
}

/// The set allowed to submit: Student alone.
pub fn submission_write_policy() -> (p: AccessPolicy)
    ensures
        p == (AccessPolicy { admin: false, teacher: false, student: true }),
{
    AccessPolicy { admin: false, teacher: false, student: true }
}

/// The read path on the teacher target that verifies an assignment
/// exists. The caller's credential is forwarded along with it unchanged,
/// so the teacher service re-applies its own policy — which accepts
/// Student for exactly this purpose.
pub fn assignment_probe_path(assignment_id: u128) -> (p: String)
    ensures
        p@ == "/api/teacher/assignments/"@ + uuid_text(assignment_id),
{
    let mut p = String::from_str("/api/teacher/assignments/");
    let id_text = uuid_hyphenated(assignment_id);
    p.append(id_text.as_str());
    p
}

/// The first stage of a submission: only Student may proceed. A refusal
/// here short-circuits the request before any remote call.
pub fn create_submission_authorize(user: &AuthUser) -> (r: Result<(), ApiError>)
    ensures
        r == if user.0.role is Student {
            Ok::<(), ApiError>(())
        } else {
            Err::<(), ApiError>(ApiError::Forbidden)
        },
{
    submission_write_policy().authorize(user)
}

/// The dependent-write decision of a submission, after the role was
/// allowed and the assignment verification produced `outcome`: a
/// confirmed absence is `NotFound`, an unknown state is `Unavailable`,
/// and only a confirmed existence yields the row to persist — a fresh
/// identifier, the referenced assignment, the caller as the student, the
/// body's content, and the present instant.
pub fn create_submission(
    user: &AuthUser,
    assignment_id: u128,
    body: CreateSubmissionBody,
    outcome: CallOutcome,
) -> (r: Result<Submission, ApiError>)
    ensures
        outcome is NotFound ==> r == Err::<Submission, ApiError>(ApiError::NotFound),
        outcome is Unavailable ==> r == Err::<Submission, ApiError>(ApiError::Unavailable),
        outcome is Exists ==> (r matches Ok(s) && s.assignment_id == assignment_id && s.student_id
            == user.0.sub && s.content == body.content),
{
    match write_gate(outcome) {
        Err(e) => Err(e),
        Ok(()) => {
            let id = fresh_uuid();
            let now = now_millis();
            let student_id = user.0.sub.clone();
            Ok(
                Submission {
                    id,
                    assignment_id,
                    student_id,
                    content: body.content,
                    created_at_ms: now,
                },
            )
        },
    }
}

} // verus!
