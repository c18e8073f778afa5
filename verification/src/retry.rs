//! Retry/escalation policy: counts consecutive retryable failures within one
//! connected run and escalates once the count passes `MAX_RETRY_TIMES`.
use vstd::prelude::*;

use crate::MAX_RETRY_TIMES;

verus! {

/// What the policy tells the engine after one more retryable failure.
#[derive(Debug)]
pub enum RetryDecision {
    /// Keep going: wait a short backoff, then retry.
    Continue,
    /// Too many consecutive failures: surface a hard failure.
    Escalate,
}

/// Consecutive-failure counter, owned by one session engine.
///
/// Reset to zero on every success and on every successful (re-)registration,
/// so long-run accounting is decoupled from single endpoint flakiness.
#[derive(Debug)]
pub struct RetryPolicy {
    pub consecutive_failures: u32,
}

/// Counter value after recording one more failure (saturating at the
/// integer bound, which the engine never reaches).
pub open spec fn bumped(c: nat) -> nat {
    if c < u32::MAX {
        c + 1
    } else {
        c
    }
}

/// A failure run escalates exactly when the counter has passed
/// `MAX_RETRY_TIMES`.
pub open spec fn escalates(c: nat) -> bool {
    c > MAX_RETRY_TIMES
}

impl RetryPolicy {
    /// A fresh policy: no failures recorded.
    pub fn new() -> (p: RetryPolicy)
        ensures
            p.consecutive_failures == 0,
    {
        RetryPolicy { consecutive_failures: 0 }
    }

    /// A successful heartbeat wipes the failure run.
    pub fn on_success(&mut self)
        ensures
            final(self).consecutive_failures == 0,
    {
        self.consecutive_failures = 0;
    }

    /// Records one retryable failure and decides whether to escalate.
    pub fn on_retryable_failure(&mut self) -> (d: RetryDecision)
        ensures
            final(self).consecutive_failures == bumped(old(self).consecutive_failures as nat),
            (d is Escalate) <==> escalates(final(self).consecutive_failures as nat),
    {
        if self.consecutive_failures < u32::MAX {
            self.consecutive_failures = self.consecutive_failures + 1;
        }
        if self.consecutive_failures > MAX_RETRY_TIMES {
            RetryDecision::Escalate
        } else {
            RetryDecision::Continue
        }
    }
}

} // verus!
