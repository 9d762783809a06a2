use classroom_core::AttemptResult;
use classroom_core::CallOutcome;
use classroom_core::CircuitState;
use classroom_core::OutboundCall;
use classroom_core::client::attempt_succeeded;
use classroom_core::errors::ApiError;
use classroom_core::outcome::write_gate;
use classroom_core::status_code;

#[test]
fn schedule_is_four_attempts_with_exact_backoffs() {
    let mut b = CircuitState::new();
    let mut call = OutboundCall::begin(&mut b, 0).unwrap();
    assert_eq!(call.next_attempt(), Some(0));
    call.note_result(AttemptResult::TransportFailure);
    assert_eq!(call.next_attempt(), Some(100));
    call.note_result(AttemptResult::TransportFailure);
    assert_eq!(call.next_attempt(), Some(200));
    call.note_result(AttemptResult::TransportFailure);
    assert_eq!(call.next_attempt(), Some(400));
    call.note_result(AttemptResult::TransportFailure);
    assert_eq!(call.next_attempt(), None);
}

#[test]
fn success_statuses_are_exactly_2xx() {
    assert!(attempt_succeeded(&AttemptResult::Response { status: 200 }));
    assert!(attempt_succeeded(&AttemptResult::Response { status: 201 }));
    assert!(attempt_succeeded(&AttemptResult::Response { status: 299 }));
    assert!(!attempt_succeeded(&AttemptResult::Response { status: 199 }));
    assert!(!attempt_succeeded(&AttemptResult::Response { status: 300 }));
    assert!(!attempt_succeeded(&AttemptResult::Response { status: 404 }));
    assert!(!attempt_succeeded(&AttemptResult::Response { status: 500 }));
    assert!(!attempt_succeeded(&AttemptResult::TransportFailure));
}

#[test]
fn answered_call_settles_and_resets_breaker() {
    let mut b = CircuitState::new();
    b.record_failure(0);
    b.record_failure(0);

    let mut call = OutboundCall::begin(&mut b, 1).unwrap();
    call.next_attempt().unwrap();
    call.note_result(AttemptResult::Response { status: 200 });
    assert_eq!(call.settle(&mut b, 2), CallOutcome::Exists);
    // the remote answered: the breaker is cleared
    assert!(b.try_pass(2));

    let mut call = OutboundCall::begin(&mut b, 3).unwrap();
    call.next_attempt().unwrap();
    call.note_result(AttemptResult::Response { status: 404 });
    assert_eq!(call.settle(&mut b, 4), CallOutcome::NotFound);
    assert!(b.try_pass(4));
}

#[test]
fn unanswered_call_is_unavailable() {
    let mut b = CircuitState::new();
    let mut call = OutboundCall::begin(&mut b, 0).unwrap();
    while let Some(_wait) = call.next_attempt() {
        call.note_result(AttemptResult::TransportFailure);
    }
    assert_eq!(call.settle(&mut b, 1), CallOutcome::Unavailable);
}

// Five calls end unanswered; a sixth within the cooldown is rejected
// locally, with zero network attempts, and surfaces as 502.
#[test]
fn failure_storm_opens_breaker_and_sixth_call_is_local() {
    let mut b = CircuitState::new();
    for i in 0..5u64 {
        let mut call = OutboundCall::begin(&mut b, i).unwrap();
        while let Some(_wait) = call.next_attempt() {
            call.note_result(AttemptResult::TransportFailure);
        }
        assert_eq!(call.settle(&mut b, i), CallOutcome::Unavailable);
    }
    // the sixth call, within the cooldown window, never starts
    assert!(OutboundCall::begin(&mut b, 1_000).is_none());
    let outcome = CallOutcome::Unavailable;
    assert_eq!(write_gate(outcome), Err(ApiError::Unavailable));
    assert_eq!(status_code(&ApiError::Unavailable), 502);
}

// Repeating an identical verification against an unchanged remote gives
// the same outcome and leaves the breaker exactly as before.
#[test]
fn repeated_verification_is_idempotent() {
    let mut b = CircuitState::new();
    let mut outcomes = Vec::new();
    for i in 0..3u64 {
        let mut call = OutboundCall::begin(&mut b, i).unwrap();
        call.next_attempt().unwrap();
        call.note_result(AttemptResult::Response { status: 200 });
        outcomes.push(call.settle(&mut b, i));
    }
    assert_eq!(outcomes, vec![CallOutcome::Exists, CallOutcome::Exists, CallOutcome::Exists]);
    assert!(!b.is_open(100));
    assert!(b.try_pass(100));
}
