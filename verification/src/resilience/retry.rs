//! Exponential backoff with deterministic jitter, and the decisions of the
//! retry loop.

use crate::error::{is_retryable, Result};
use vstd::arithmetic::power2::{lemma2_to64, lemma_pow2_strictly_increases, lemma_pow2_unfold, pow2};
use vstd::bits::{lemma_u64_pow2_no_overflow, lemma_u64_shl_is_mul};
use vstd::prelude::*;

verus! {

/// How a failing call is retried.
#[derive(Debug, Clone, Copy)]
pub struct RetryPolicy {
    /// Total number of attempts (first try and retries).
    pub max_attempts: u32,
    /// Base delay in milliseconds before the first retry.
    pub base_delay_ms: u64,
    /// Upper cap on the computed delay in milliseconds.
    pub max_delay_ms: u64,
}

impl Default for RetryPolicy {
    fn default() -> (p: RetryPolicy)
        ensures
            p.max_attempts == 3,
            p.base_delay_ms == 100,
            p.max_delay_ms == 5000,
    {
        RetryPolicy { max_attempts: 3, base_delay_ms: 100, max_delay_ms: 5000 }
    }
}

/// `x`, or `u64::MAX` when it does not fit.
pub open spec fn saturate(x: int) -> int {
    if x > u64::MAX {
        u64::MAX as int
    } else {
        x
    }
}

/// The delay before retry number `attempt`:
/// `min(base * 2^min(attempt, 31) + (attempt * 37) % 100, max)`, each step
/// saturating at `u64::MAX`.
pub open spec fn backoff_ms(base: u64, max: u64, attempt: u32) -> int {
    let shift: nat = if attempt < 31 { attempt as nat } else { 31 };
    let exponential = saturate(base * pow2(shift));
    let jitter = (attempt * 37) % 100;
    let total = saturate(exponential + jitter);
    if total < max {
        total
    } else {
        max as int
    }
}

/// The delay in milliseconds before retry number `attempt` (the first retry
/// is attempt 1). Never more than `policy.max_delay_ms`.
pub fn compute_delay_ms(policy: &RetryPolicy, attempt: u32) -> (d: u64)
    ensures
        d == backoff_ms(policy.base_delay_ms, policy.max_delay_ms, attempt),
        d <= policy.max_delay_ms,
{
    let shift: u64 = if attempt < 31 { attempt as u64 } else { 31 };
    proof {
        lemma_u64_pow2_no_overflow(shift as nat);
        lemma_u64_shl_is_mul(1, shift);
    }
    let factor: u64 = 1u64 << shift;
    let exponential: u64 = match policy.base_delay_ms.checked_mul(factor) {
        Some(v) => v,
        None => u64::MAX,
    };
    let jitter: u64 = ((attempt as u64) * 37) % 100;
    let total: u64 = exponential.saturating_add(jitter);
    if total < policy.max_delay_ms {
        total
    } else {
        policy.max_delay_ms
    }
}

/// Backoff never shrinks from one retry to the next while the doubling still
/// outweighs the jitter: for attempts below the 2^31 cap and a base delay of at
/// least 50 ms.
pub proof fn law_backoff_non_decreasing(base: u64, max: u64, attempt: u32)
    requires
        attempt < 31,
        base >= 50,
    ensures
        backoff_ms(base, max, attempt) <= backoff_ms(base, max, (attempt + 1) as u32),
{
    let a = attempt as nat;
    let p0 = pow2(a);
    let p1 = pow2(a + 1);
    lemma_pow2_unfold(a + 1);
    assert(p1 == 2 * p0);
    let e0 = base * p0;
    let e1 = base * p1;
    assert(e1 == 2 * e0) by (nonlinear_arith)
        requires
            e1 == base * p1,
            e0 == base * p0,
            p1 == 2 * p0,
    ;
    if a == 0 {
        lemma2_to64();
        assert(e0 == base) by (nonlinear_arith)
            requires
                e0 == base * p0,
                p0 == 1,
        ;
        assert((attempt * 37) % 100 == 0);
    } else {
        lemma_pow2_strictly_increases(0, a);
        lemma2_to64();
        assert(e0 >= 100) by (nonlinear_arith)
            requires
                e0 == base * p0,
                p0 >= 2,
                base >= 50,
        ;
    }
}

/// What the retry loop does next.
pub enum RetryStep<T> {
    /// Make the call, after waiting `wait_ms` milliseconds when given.
    Call { wait_ms: Option<u64> },
    /// Stop with this result.
    Done(Result<T>),
}

/// The state of one retried operation: which attempt is in flight.
pub struct RetryRun {
    policy: RetryPolicy,
    attempt: u32,
}

impl RetryRun {
    /// The policy being followed.
    pub closed spec fn policy_spec(&self) -> RetryPolicy {
        self.policy
    }

    /// The 0-based number of the attempt in flight.
    pub closed spec fn attempt_spec(&self) -> u32 {
        self.attempt
    }

    /// Attempts still allowed after the one in flight.
    pub open spec fn attempts_left(&self) -> nat {
        (self.policy_spec().max_attempts - self.attempt_spec() - 1) as nat
    }

    /// The attempt in flight is within the policy's budget.
    pub open spec fn wf(&self) -> bool {
        self.attempt_spec() < self.policy_spec().max_attempts
    }

    /// Whether `outcome` leads to another attempt: a retryable error with
    /// attempts left.
    pub open spec fn retries<T>(&self, outcome: Result<T>) -> bool {
        outcome matches Err(e) && e.is_retryable() && self.attempts_left() > 0
    }

    /// Starts an operation: the first attempt is made at once.
    /// A policy allowing no attempt at all is not accepted.
    pub fn start<T>(policy: RetryPolicy) -> (r: (RetryRun, RetryStep<T>))
        requires
            policy.max_attempts >= 1,
        ensures
            r.0.wf(),
            r.0.policy_spec() == policy,
            r.0.attempt_spec() == 0,
            r.1 matches RetryStep::Call { wait_ms: None },
    {
        (RetryRun { policy, attempt: 0 }, RetryStep::Call { wait_ms: None })
    }

    /// The outcome of the attempt in flight. A success, or an error that is not
    /// retryable, ends the operation with it; a retryable error starts the next
    /// attempt after the backoff delay, or ends the operation with that error
    /// once the attempts are used up.
    pub fn on_outcome<T>(&mut self, outcome: Result<T>) -> (step: RetryStep<T>)
        requires
            old(self).wf(),
        ensures
            final(self).wf(),
            final(self).policy_spec() == old(self).policy_spec(),
            old(self).retries(outcome) ==> {
                &&& final(self).attempt_spec() == old(self).attempt_spec() + 1
                &&& step matches RetryStep::Call { wait_ms: Some(w) }
                &&& w == backoff_ms(
                    old(self).policy_spec().base_delay_ms,
                    old(self).policy_spec().max_delay_ms,
                    final(self).attempt_spec(),
                )
            },
            !old(self).retries(outcome) ==> {
                &&& final(self).attempt_spec() == old(self).attempt_spec()
                &&& step matches RetryStep::Done(r)
                &&& r == outcome
            },
    {
        match outcome {
            Ok(v) => RetryStep::Done(Ok(v)),
            Err(e) => {
                if is_retryable(&e) && self.attempt + 1 < self.policy.max_attempts {
                    self.attempt = self.attempt + 1;
                    let wait = compute_delay_ms(&self.policy, self.attempt);
                    RetryStep::Call { wait_ms: Some(wait) }
                } else {
                    RetryStep::Done(Err(e))
                }
            },
        }
    }
}

} // verus!
