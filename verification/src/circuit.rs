//! Per-target circuit breaker: a failure memory that converts a storm of
//! remote failures into fast local rejections.
//!
//! The breaker keeps a consecutive-failure count and the instant of the
//! last failure; its phase is derived from those counters, never stored.
//! Below the threshold it is `Closed` and calls pass. From the threshold
//! on it is `Open` until the cooldown has elapsed, and every call is
//! rejected without any network attempt. Once the cooldown has elapsed it
//! is `HalfOpen`: `try_pass` lets exactly one probe through by stamping the
//! failure instant afresh, so that every other caller is rejected until
//! the probe settles. A probe's success resets the count to zero; its
//! failure re-opens the breaker with a refreshed instant.
//!
//! Time enters every operation as an explicit reading of a monotonic
//! millisecond clock, so that each transition is a pure function of the
//! stored counters and that reading.

use vstd::prelude::*;

verus! {

/// Consecutive failures at which the breaker opens.
pub const FAILURE_THRESHOLD: u32 = 5;

/// How long an open breaker rejects calls before it admits a probe.
pub const COOLDOWN_MS: u64 = 30_000;

/// The derived phase of a breaker at one instant.
#[derive(Debug, Clone, Copy, PartialEq, Eq, Structural)]
pub enum BreakerPhase {
    /// Failure count below threshold: calls pass through.
    Closed,
    /// Threshold reached and cooldown not elapsed: calls are rejected.
    Open,
    /// Threshold reached and cooldown elapsed: one probe is admitted.
    HalfOpen,
}

/// Failure memory for one remote target.
pub struct CircuitState {
    failures: u32,
    last_failure_ms: Option<u64>,
}

impl CircuitState {
    /// The stored consecutive-failure count.
    pub closed spec fn spec_failures(&self) -> u32 {
        self.failures
    }

    /// The stored instant of the last recorded failure, if any.
    pub closed spec fn spec_last_failure(&self) -> Option<u64> {
        self.last_failure_ms
    }

    /// The phase at instant `now_ms`, derived from the counters.
    pub open spec fn phase(&self, now_ms: u64) -> BreakerPhase {
        if self.spec_failures() < FAILURE_THRESHOLD {
            BreakerPhase::Closed
        } else {
            match self.spec_last_failure() {
                None => BreakerPhase::Open,
                Some(t) => if t + COOLDOWN_MS <= now_ms {
                    BreakerPhase::HalfOpen
                } else {
                    BreakerPhase::Open
                },
            }
        }
    }

    /// A fresh breaker: no failures recorded, hence Closed at any instant.
    pub fn new() -> (s: Self)
        ensures
            s.spec_failures() == 0,
            s.spec_last_failure() is None,
    {
        CircuitState { failures: 0, last_failure_ms: None }
    }

    /// Zeroes the failure count and clears the last-failure instant, so
    /// the breaker is Closed at every later instant.
    pub fn record_success(&mut self)
        ensures
            final(self).spec_failures() == 0,
            final(self).spec_last_failure() is None,
    {
        self.failures = 0;
        self.last_failure_ms = None;
    }

    /// Counts one more consecutive failure and stamps its instant. The
    /// count never decreases here, so once the threshold is crossed the
    /// breaker stays away from Closed until an explicit success.
    pub fn record_failure(&mut self, now_ms: u64)
        ensures
            final(self).spec_failures() == if old(self).spec_failures() == u32::MAX {
                old(self).spec_failures() as int
            } else {
                old(self).spec_failures() + 1
            },
            final(self).spec_failures() >= old(self).spec_failures(),
            final(self).spec_last_failure() == Some(now_ms),
    {
        self.failures = if self.failures == u32::MAX { u32::MAX } else { self.failures + 1 };
        self.last_failure_ms = Some(now_ms);
    }

    /// Whether calls are being rejected at instant `now_ms`. HalfOpen
    /// reports false: a probe may go through.
    pub fn is_open(&self, now_ms: u64) -> (open: bool)
        ensures
            open == (self.phase(now_ms) is Open),
    {
        if self.failures < FAILURE_THRESHOLD {
            false
        } else {
            match self.last_failure_ms {
                None => true,
                Some(t) => !(t <= now_ms && now_ms - t >= COOLDOWN_MS),
            }
        }
    }

    /// Decides whether an outbound call may start now. Closed: yes,
    /// with the counters kept; Open: no, with the counters kept;
    /// HalfOpen: yes for the one probe, whose instant is stamped as a
    /// failure instant so that every further call within a new cooldown
    /// window is rejected until the probe settles through
    /// `record_success` or `record_failure`.
    pub fn try_pass(&mut self, now_ms: u64) -> (passed: bool)
        ensures
            passed == (old(self).phase(now_ms) !is Open),
            old(self).phase(now_ms) is Closed ==> *final(self) == *old(self),
            old(self).phase(now_ms) is Open ==> *final(self) == *old(self),
            old(self).phase(now_ms) is HalfOpen ==> {
                &&& final(self).spec_failures() == old(self).spec_failures()
                &&& final(self).spec_last_failure() == Some(now_ms)
            },
    {
        if self.failures < FAILURE_THRESHOLD {
            true
        } else {
            match self.last_failure_ms {
                None => false,
                Some(t) => {
                    if t <= now_ms && now_ms - t >= COOLDOWN_MS {
                        self.last_failure_ms = Some(now_ms);
                        true
                    } else {
                        false
                    }
                },
            }
        }
    }
}

/// Law: with any failure count below the threshold the breaker is Closed
/// at every instant, and by the contract of `try_pass` it lets calls through.
pub proof fn lemma_below_threshold_closed(s: CircuitState, now_ms: u64)
    requires
        s.spec_failures() < FAILURE_THRESHOLD,
    ensures
        s.phase(now_ms) is Closed,
{
}

/// Law: once the count has reached the threshold, the breaker is Open —
/// and by the contract of `try_pass` rejects every call with no network
/// attempt — at every instant before the cooldown has elapsed since the
/// last recorded failure.
pub proof fn lemma_threshold_opens(s: CircuitState, t: u64, now_ms: u64)
    requires
        s.spec_failures() >= FAILURE_THRESHOLD,
        s.spec_last_failure() == Some(t),
        t <= now_ms < t + COOLDOWN_MS,
    ensures
        s.phase(now_ms) is Open,
{
}

/// The two counters are all a breaker holds: states that agree on them
/// are the same state.
pub proof fn lemma_counters_determine_state(a: CircuitState, b: CircuitState)
    requires
        a.spec_failures() == b.spec_failures(),
        a.spec_last_failure() == b.spec_last_failure(),
    ensures
        a == b,
{
}

/// Law: when the cooldown has elapsed while Open, the breaker is HalfOpen
/// and exactly one probe is admitted. `try_pass` leaves behind precisely a
/// state of the shape required here, and that state is Open at every
/// later instant inside a fresh cooldown window, so a second probe is
/// rejected until the first settles.
pub proof fn lemma_single_probe(
    before: CircuitState,
    after: CircuitState,
    probe_ms: u64,
    later_ms: u64,
)
    requires
        before.phase(probe_ms) is HalfOpen,
        after.spec_failures() == before.spec_failures(),
        after.spec_last_failure() == Some(probe_ms),
        probe_ms <= later_ms < probe_ms + COOLDOWN_MS,
    ensures
        after.phase(later_ms) is Open,
{
}

} // verus!
