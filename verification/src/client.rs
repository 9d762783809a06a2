//! The outbound existence-probe call: bounded retry with exponential
//! backoff, gated by the target's circuit breaker.
//!
//! The waiting and the network send are the caller's to perform; every
//! decision — whether the call may start, how long to wait before each
//! attempt, when to stop, what the call established, and what the
//! breaker learns from it — is taken here. An `OutboundCall` is the state
//! of one such call: open it against the target's breaker, ask
//! `next_attempt` for each attempt and its delay, note each attempt's
//! result, and `settle` to surface the outcome and report to the breaker.
//!
//! A failure is counted against the breaker only when the call ended in
//! an unknown state (transport failure on the last attempt, or no attempt
//! answered). A remote that answered — with any status — has shown itself
//! available, so the breaker resets even when the answer was not 2xx.

use vstd::prelude::*;

use crate::circuit::CircuitState;
use crate::outcome::CallOutcome;

verus! {

/// Retries after the first attempt.
pub const RETRY_COUNT: u32 = 3;

/// Attempts in all: the first one plus the retries.
pub const ATTEMPT_LIMIT: u32 = RETRY_COUNT + 1;

/// Backoff before the first retry; each further retry doubles it.
pub const BASE_BACKOFF_MS: u64 = 100;

/// How one attempt ended: an HTTP answer with its status, or no answer.
#[derive(Debug, Clone, Copy, PartialEq, Eq, Structural)]
pub enum AttemptResult {
    /// The remote answered with this status code.
    Response { status: u16 },
    /// Connect failure, send failure or timeout: no answer.
    TransportFailure,
}

/// The wait before the attempt that follows `attempts_made` earlier
/// ones: nothing before the first attempt, then 100, 200, 400 ms.
pub open spec fn spec_backoff_ms(attempts_made: u32) -> u64 {
    if attempts_made == 0 {
        0
    } else if attempts_made == 1 {
        100
    } else if attempts_made == 2 {
        200
    } else {
        400
    }
}

/// Whether an attempt's result counts as success: any 2xx answer.
pub open spec fn spec_is_success(r: AttemptResult) -> bool {
    r matches AttemptResult::Response { status } && 200 <= status < 300
}

/// Whether this attempt succeeded, ending the call early.
pub fn attempt_succeeded(r: &AttemptResult) -> (ok: bool)
    ensures
        ok == spec_is_success(*r),
{
    match r {
        AttemptResult::Response { status } => 200 <= *status && *status < 300,
        AttemptResult::TransportFailure => false,
    }
}

/// What a finished call established, judged from its last attempt:
/// a 2xx answer confirms existence, any other answer confirms absence,
/// and no answer at all leaves the state unknown.
pub open spec fn spec_outcome(last: Option<AttemptResult>) -> CallOutcome {
    match last {
        Some(AttemptResult::Response { status }) => if 200 <= status < 300 {
            CallOutcome::Exists
        } else {
            CallOutcome::NotFound
        },
        Some(AttemptResult::TransportFailure) => CallOutcome::Unavailable,
        None => CallOutcome::Unavailable,
    }
}

/// One outbound existence-probe call in progress.
pub struct OutboundCall {
    attempts_made: u32,
    last: Option<AttemptResult>,
}

impl OutboundCall {
    /// How many attempts have been handed out.
    pub closed spec fn spec_attempts_made(&self) -> u32 {
        self.attempts_made
    }

    /// The result of the most recent attempt, if any was noted.
    pub closed spec fn spec_last(&self) -> Option<AttemptResult> {
        self.last
    }

    /// A call never holds more than the attempt limit.
    pub open spec fn wf(&self) -> bool {
        self.spec_attempts_made() <= ATTEMPT_LIMIT
    }

    /// Asks the target's breaker whether the call may start. Against an
    /// Open breaker the answer is `None` — the call is rejected locally,
    /// no attempt happens, and the breaker is untouched. Otherwise the
    /// call starts with no attempts made; a HalfOpen breaker stamps the
    /// probe instant so that no second probe is admitted meanwhile.
    pub fn begin(breaker: &mut CircuitState, now_ms: u64) -> (r: Option<OutboundCall>)
        ensures
            (r is Some) == (old(breaker).phase(now_ms) !is Open),
            r matches Some(c) ==> {
                &&& c.wf()
                &&& c.spec_attempts_made() == 0
                &&& c.spec_last() is None
            },
            old(breaker).phase(now_ms) is Closed ==> *final(breaker) == *old(breaker),
            old(breaker).phase(now_ms) is Open ==> *final(breaker) == *old(breaker),
            old(breaker).phase(now_ms) is HalfOpen ==> {
                &&& final(breaker).spec_failures() == old(breaker).spec_failures()
                &&& final(breaker).spec_last_failure() == Some(now_ms)
            },
    {
        if breaker.try_pass(now_ms) {
            Some(OutboundCall { attempts_made: 0, last: None })
        } else {
            None
        }
    }

    /// Hands out the next attempt, with the wait owed before it: `Some`
    /// with the backoff while attempts remain, `None` once the limit is
    /// reached — at most `ATTEMPT_LIMIT` attempts in all, no wait before
    /// the first, then 100, 200, 400 ms.
    pub fn next_attempt(&mut self) -> (d: Option<u64>)
        requires
            old(self).wf(),
        ensures
            final(self).wf(),
            final(self).spec_last() == old(self).spec_last(),
            (d is Some) == (old(self).spec_attempts_made() < ATTEMPT_LIMIT),
            d matches Some(wait) ==> {
                &&& wait == spec_backoff_ms(old(self).spec_attempts_made())
                &&& final(self).spec_attempts_made() == old(self).spec_attempts_made() + 1
            },
            d is None ==> *final(self) == *old(self),
    {
        if self.attempts_made < ATTEMPT_LIMIT {
            let wait: u64 = if self.attempts_made == 0 {
                0
            } else if self.attempts_made == 1 {
                100
            } else if self.attempts_made == 2 {
                200
            } else {
                400
            };
            self.attempts_made = self.attempts_made + 1;
            Some(wait)
        } else {
            None
        }
    }

    /// Notes how the attempt just performed ended.
    pub fn note_result(&mut self, res: AttemptResult)
        ensures
            final(self).spec_attempts_made() == old(self).spec_attempts_made(),
            final(self).spec_last() == Some(res),
    {
        self.last = Some(res);
    }

    /// Ends the call: surfaces what it established and reports to the
    /// breaker. Only an unknown state counts as a breaker failure, with
    /// the failure instant stamped now; a remote that answered resets
    /// the breaker.
    pub fn settle(&self, breaker: &mut CircuitState, now_ms: u64) -> (o: CallOutcome)
        ensures
            o == spec_outcome(self.spec_last()),
            o is Unavailable ==> {
                &&& final(breaker).spec_failures() == if old(breaker).spec_failures()
                    == u32::MAX {
                    old(breaker).spec_failures() as int
                } else {
                    old(breaker).spec_failures() + 1
                }
                &&& final(breaker).spec_last_failure() == Some(now_ms)
            },
            o !is Unavailable ==> {
                &&& final(breaker).spec_failures() == 0
                &&& final(breaker).spec_last_failure() is None
            },
    {
        let o = match self.last {
            Some(AttemptResult::Response { status }) => if 200 <= status && status < 300 {
                CallOutcome::Exists
            } else {
                CallOutcome::NotFound
            },
            Some(AttemptResult::TransportFailure) => CallOutcome::Unavailable,
            None => CallOutcome::Unavailable,
        };
        match o {
            CallOutcome::Unavailable => breaker.record_failure(now_ms),
            _ => breaker.record_success(),
        }
        o
    }
}

/// Law (idempotence): repeating an identical verification call against
/// an unchanged remote observes nothing new and leaves nothing behind.
/// The outcome is `spec_outcome` of the remote's answers alone, so an
/// unchanged remote yields the same outcome every time. And when the
/// remote answered, `settle` leaves the breaker cleared — the very state
/// required here of `cleared` — which is Closed at every instant, so the
/// repeat is let through, runs under the same contracts, and by
/// `lemma_counters_determine_state` leaves the breaker equal to the
/// state the first call left: no effect accumulates across repetitions.
pub proof fn lemma_verification_idempotent(
    cleared: CircuitState,
    settled_again: CircuitState,
    now_ms: u64,
    history: Option<AttemptResult>,
)
    requires
        cleared.spec_failures() == 0,
        cleared.spec_last_failure() is None,
        settled_again.spec_failures() == 0,
        settled_again.spec_last_failure() is None,
        spec_outcome(history) !is Unavailable,
    ensures
        cleared.phase(now_ms) is Closed,
        settled_again == cleared,
{
    crate::circuit::lemma_counters_determine_state(settled_again, cleared);
}

/// Law: the retry schedule. The contract of `next_attempt` allows at
/// most `ATTEMPT_LIMIT` attempts per call; the waits it hands out are
/// exactly these — none before the first attempt, then 100, 200 and
/// 400 ms before the three retries.
pub proof fn lemma_retry_schedule()
    ensures
        ATTEMPT_LIMIT == 4,
        spec_backoff_ms(0) == 0,
        spec_backoff_ms(1) == 100,
        spec_backoff_ms(2) == 200,
        spec_backoff_ms(3) == 400,
{
}

} // verus!
