use classroom_core::AttemptResult;
use classroom_core::AuthUser;
use classroom_core::CallOutcome;
use classroom_core::CircuitState;
use classroom_core::Claims;
use classroom_core::OutboundCall;
use classroom_core::Role;
use classroom_core::admin;
use classroom_core::errors::ApiError;
use classroom_core::errors::persistence_gate;
use classroom_core::errors::readiness_gate;
use classroom_core::status_code;
use classroom_core::student;
use classroom_core::teacher;

fn user(role: Role) -> AuthUser {
    AuthUser(Claims { sub: "caller-7".to_string(), role, exp: 9_999, iss: None })
}

/// Runs one existence verification whose remote answers as given.
fn verify_against(breaker: &mut CircuitState, now: u64, answer: AttemptResult) -> CallOutcome {
    match OutboundCall::begin(breaker, now) {
        None => CallOutcome::Unavailable,
        Some(mut call) => {
            call.next_attempt().unwrap();
            call.note_result(answer);
            call.settle(breaker, now)
        }
    }
}

// Teacher creates an assignment for a course; the admin target answers
// 200: the row to persist is produced, carrying the course and title.
#[test]
fn assignment_creation_proceeds_when_course_exists() {
    let teacher_user = user(Role::Teacher);
    assert_eq!(teacher::create_assignment_authorize(&teacher_user), Ok(()));

    let course_id: u128 = 42;
    let mut admin_breaker = CircuitState::new();
    let outcome = verify_against(&mut admin_breaker, 0, AttemptResult::Response { status: 200 });
    assert_eq!(outcome, CallOutcome::Exists);

    let body = teacher::CreateAssignmentBody { title: "week 1 reading".to_string() };
    let row = teacher::create_assignment(course_id, body, outcome).unwrap();
    assert_eq!(row.course_id, course_id);
    assert_eq!(row.title, "week 1 reading");
    // the write is admitted
    assert_eq!(persistence_gate(true), Ok(()));
}

// Same request, but the admin target answers 404: the response is 404
// and no row is produced.
#[test]
fn assignment_creation_refused_when_course_absent() {
    let teacher_user = user(Role::Teacher);
    assert_eq!(teacher::create_assignment_authorize(&teacher_user), Ok(()));

    let mut admin_breaker = CircuitState::new();
    let outcome = verify_against(&mut admin_breaker, 0, AttemptResult::Response { status: 404 });
    assert_eq!(outcome, CallOutcome::NotFound);

    let body = teacher::CreateAssignmentBody { title: "week 1 reading".to_string() };
    let r = teacher::create_assignment(42, body, outcome);
    assert_eq!(r.err(), Some(ApiError::NotFound));
    assert_eq!(status_code(&ApiError::NotFound), 404);
}

// A student submits while the teacher target's circuit is open: 502,
// and no submission row is produced.
#[test]
fn submission_refused_while_teacher_target_open() {
    let student_user = user(Role::Student);
    assert_eq!(student::create_submission_authorize(&student_user), Ok(()));

    let mut teacher_breaker = CircuitState::new();
    for i in 0..5u64 {
        let outcome = verify_against(&mut teacher_breaker, i, AttemptResult::TransportFailure);
        assert_eq!(outcome, CallOutcome::Unavailable);
    }
    // circuit open: the verification never reaches the network
    let outcome = verify_against(&mut teacher_breaker, 1_000, AttemptResult::TransportFailure);
    assert_eq!(outcome, CallOutcome::Unavailable);

    let body = student::CreateSubmissionBody { content: Some("my answer".to_string()) };
    let r = student::create_submission(&student_user, 7, body, outcome);
    assert_eq!(r.err(), Some(ApiError::Unavailable));
    assert_eq!(status_code(&ApiError::Unavailable), 502);
}

#[test]
fn submission_row_carries_caller_and_assignment() {
    let student_user = user(Role::Student);
    let body = student::CreateSubmissionBody { content: Some("my answer".to_string()) };
    let row = student::create_submission(&student_user, 7, body, CallOutcome::Exists).unwrap();
    assert_eq!(row.assignment_id, 7);
    assert_eq!(row.student_id, "caller-7");
    assert_eq!(row.content.as_deref(), Some("my answer"));
}

#[test]
fn course_creation_is_admin_only() {
    assert_eq!(admin::create_course_authorize(&user(Role::Admin)), Ok(()));
    assert_eq!(admin::create_course_authorize(&user(Role::Teacher)), Err(ApiError::Forbidden));
    assert_eq!(admin::create_course_authorize(&user(Role::Student)), Err(ApiError::Forbidden));

    let row = admin::create_course(admin::CreateCourseBody { name: "algebra".to_string() });
    assert_eq!(row.name, "algebra");
}

#[test]
fn reads_accept_the_second_role_for_existence_checks() {
    assert_eq!(admin::get_course_authorize(&user(Role::Admin)), Ok(()));
    assert_eq!(admin::get_course_authorize(&user(Role::Teacher)), Ok(()));
    assert_eq!(admin::get_course_authorize(&user(Role::Student)), Err(ApiError::Forbidden));

    assert_eq!(teacher::get_assignment_authorize(&user(Role::Teacher)), Ok(()));
    assert_eq!(teacher::get_assignment_authorize(&user(Role::Student)), Ok(()));
    assert_eq!(teacher::get_assignment_authorize(&user(Role::Admin)), Err(ApiError::Forbidden));
}

#[test]
fn absent_rows_are_not_found() {
    assert_eq!(admin::found_course(None).err(), Some(ApiError::NotFound));
    let c = admin::Course { id: 1, name: "algebra".to_string(), created_at_ms: 5 };
    assert_eq!(admin::found_course(Some(c)).unwrap().name, "algebra");

    assert_eq!(teacher::found_assignment(None).err(), Some(ApiError::NotFound));
    let a = teacher::Assignment {
        id: 1,
        course_id: 2,
        title: "week 1".to_string(),
        created_at_ms: 5,
    };
    assert_eq!(teacher::found_assignment(Some(a)).unwrap().course_id, 2);
}

#[test]
fn probe_paths_spell_the_identifier() {
    assert_eq!(
        teacher::course_probe_path(0),
        "/api/admin/courses/00000000-0000-0000-0000-000000000000"
    );
    assert_eq!(
        student::assignment_probe_path(u128::MAX),
        "/api/teacher/assignments/ffffffff-ffff-ffff-ffff-ffffffffffff"
    );
}

#[test]
fn failed_write_and_failed_probe_have_their_statuses() {
    assert_eq!(persistence_gate(false).err(), Some(ApiError::PersistenceFailure));
    assert_eq!(status_code(&ApiError::PersistenceFailure), 500);
    assert_eq!(readiness_gate(false).err(), Some(ApiError::NotReady));
    assert_eq!(readiness_gate(true), Ok(()));
    assert_eq!(status_code(&ApiError::NotReady), 503);
}
