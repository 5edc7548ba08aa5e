//! The resilient decorator around a backend: retry, rate limiting, circuit
//! breaking and metrics reporting, layered outer to inner as
//!
//! ```text
//! Retry → RateLimiter → CircuitBreaker → backend call
//! ```
//!
//! - Retry is outermost, so every attempt goes through admission again.
//! - The rate limiter sits outside the breaker, so a throttled request
//!   (fail-fast `RateLimited`) never counts as a backend failure.
//! - The breaker is innermost, so it sees every physical attempt.
//!
//! One logical operation is a state machine driven by the caller, who makes
//! the backend call, sleeps, and reads the clock (microseconds, monotonic).
//! Metrics are recorded once per operation, by the step that finishes it.

use crate::backends::ChatResponse;
use crate::config::ResolvedResilience;
use crate::error::{Result, WeirError};
use crate::observability::metrics::{circuit_code, circuit_report, wrap_add, Metrics};
use crate::resilience::circuit_breaker::{
    admitted_phase, blocks, recorded, rejection_text, snapshot, CircuitBreaker,
};
use crate::resilience::rate_limit::{acquired, grants, throttle_text, RateLimiter};
use crate::resilience::retry::{backoff_ms, RetryPolicy, RetryRun, RetryStep};
use vstd::prelude::*;
use vstd::string::*;

verus! {

/// What an operation reports to the backend's metrics when it finishes.
#[derive(Debug, Clone, Copy)]
pub struct OpReport {
    /// End-to-end latency in milliseconds for a success; `None` for a failure.
    pub latency_ms: Option<u64>,
    /// The breaker's circuit code and open seconds at the end.
    pub circuit_code: u64,
    pub circuit_open_secs: u64,
}

/// What the caller does next in an operation.
pub enum CallStep {
    /// Call the backend now and hand its outcome to `on_response`.
    Invoke,
    /// Sleep this many milliseconds, then call `after_wait`.
    Wait(u64),
    /// The operation is over: record `report` in the metrics and return `result`.
    Finished { result: Result<ChatResponse>, report: OpReport },
}

/// One logical operation in flight.
pub struct ResilientCall {
    retry: RetryRun,
    started_us: u64,
}

impl ResilientCall {
    /// The retry state of the operation.
    pub closed spec fn retry(&self) -> RetryRun {
        self.retry
    }

    /// Clock reading when the operation began.
    pub closed spec fn started(&self) -> u64 {
        self.started_us
    }
}

/// A backend wrapped with retry, rate limiting and circuit breaking.
pub struct ResilientBackend {
    name: String,
    retry: RetryPolicy,
    breaker: CircuitBreaker,
    limiter: Option<RateLimiter>,
}

/// The report of an operation ending at `now_us` with breaker `b`.
pub open spec fn report_of(b: CircuitBreaker, now_us: u64, latency_ms: Option<u64>) -> OpReport {
    let (code, secs) = circuit_report(snapshot(b.phase(), now_us));
    OpReport { latency_ms, circuit_code: code, circuit_open_secs: secs }
}

/// The latency reported for `result`: whole milliseconds since `started_us`
/// for a success, nothing for a failure.
pub open spec fn latency_of(result: Result<ChatResponse>, started_us: u64, now_us: u64) -> Option<u64> {
    if result is Ok {
        Some((if now_us >= started_us { (now_us - started_us) / 1000 } else { 0 }) as u64)
    } else {
        None
    }
}

/// `after` is `before` with `report` recorded for the backend `name`: one
/// request; a latency sample for a success, an error for a failure; and the
/// circuit state. Other backends are untouched.
pub open spec fn reported(before: Metrics, after: Metrics, name: Seq<char>, report: OpReport) -> bool {
    let (b, a) = (before.of(name), after.of(name));
    &&& a.requests_total == wrap_add(b.requests_total, 1)
    &&& match report.latency_ms {
        Some(ms) => {
            &&& a.errors_total == b.errors_total
            &&& a.latency_sum_ms == wrap_add(b.latency_sum_ms, ms)
            &&& a.latency_count == wrap_add(b.latency_count, 1)
        },
        None => {
            &&& a.errors_total == wrap_add(b.errors_total, 1)
            &&& a.latency_sum_ms == b.latency_sum_ms
            &&& a.latency_count == b.latency_count
        },
    }
    &&& a.circuit_state == report.circuit_code
    &&& a.circuit_open_secs == report.circuit_open_secs
    &&& forall|n: Seq<char>| n != name ==> #[trigger] after.of(n) == before.of(n)
}

/// What a step does to the metrics: the step that finishes an operation
/// records its report for `name`; any other step leaves them as they were.
pub open spec fn step_metrics(before: Metrics, after: Metrics, name: Seq<char>, step: CallStep) -> bool {
    match step {
        CallStep::Finished { report, .. } => reported(before, after, name, report),
        _ => after == before,
    }
}

/// Whatever the number of attempts, waits and admissions, an operation
/// counts once in the metrics of its backend: when every step before the last
/// leaves the metrics alone and the last one finishes the operation, the
/// backend ends with one more request, one more error exactly when the
/// operation failed, the latency of a success added, and the circuit state of
/// the end; other backends are untouched.
pub proof fn law_operation_counts_once(ms: Seq<Metrics>, steps: Seq<CallStep>, name: Seq<char>)
    requires
        steps.len() >= 1,
        ms.len() == steps.len() + 1,
        forall|k: int| 0 <= k < steps.len() ==> step_metrics(ms[k], ms[k + 1], name, #[trigger] steps[k]),
        forall|k: int| 0 <= k < steps.len() - 1 ==> !(#[trigger] steps[k] is Finished),
        steps.last() is Finished,
    ensures
        reported(ms[0], ms.last(), name, steps.last()->report),
{
    let last = steps.len() - 1;
    assert forall|k: int| 0 <= k <= last implies #[trigger] ms[k] == ms[0] by {
        lemma_unchanged_prefix(ms, steps, name, k);
    }
    assert(ms[last] == ms[0]);
    let s = steps[last];
    assert(step_metrics(ms[last], ms[last + 1], name, s));
}

proof fn lemma_unchanged_prefix(ms: Seq<Metrics>, steps: Seq<CallStep>, name: Seq<char>, k: int)
    requires
        ms.len() == steps.len() + 1,
        forall|j: int| 0 <= j < steps.len() ==> step_metrics(ms[j], ms[j + 1], name, #[trigger] steps[j]),
        forall|j: int| 0 <= j < steps.len() - 1 ==> !(#[trigger] steps[j] is Finished),
        0 <= k <= steps.len() - 1,
    ensures
        ms[k] == ms[0],
    decreases k,
{
    if k > 0 {
        lemma_unchanged_prefix(ms, steps, name, k - 1);
        let s = steps[k - 1];
        assert(!(s is Finished));
        assert(step_metrics(ms[k - 1], ms[k - 1 + 1], name, s));
    }
}

impl ResilientBackend {
    /// The backend's name.
    pub closed spec fn name_spec(&self) -> Seq<char> {
        self.name@
    }

    /// The retry policy.
    pub closed spec fn policy(&self) -> RetryPolicy {
        self.retry
    }

    /// The circuit breaker.
    pub closed spec fn breaker(&self) -> CircuitBreaker {
        self.breaker
    }

    /// The rate limiter, absent when disabled.
    pub closed spec fn limiter(&self) -> Option<RateLimiter> {
        self.limiter
    }

    /// Breaker and limiter are well formed.
    pub open spec fn wf(&self) -> bool {
        &&& self.breaker().wf()
        &&& (self.limiter() matches Some(l) ==> l.wf())
    }

    /// `call` is an operation of this backend.
    pub open spec fn runs(&self, call: ResilientCall) -> bool {
        call.retry().wf() && call.retry().policy_spec() == self.policy()
    }

    /// What admission at `now_us` does to `before`, giving `after` and `step`:
    /// the limiter (when there is one) takes a token or throttles; a throttled
    /// request leaves the breaker alone; otherwise the breaker lets the request
    /// through or rejects it while open.
    pub open spec fn admission(
        before: ResilientBackend,
        now_us: u64,
        after: ResilientBackend,
        step: CallStep,
    ) -> bool {
        let throttled = before.limiter() matches Some(l) && !grants(l, now_us);
        &&& after.name_spec() == before.name_spec()
        &&& after.policy() == before.policy()
        &&& match (before.limiter(), after.limiter()) {
            (None, None) => true,
            (Some(l), Some(l2)) => acquired(l, now_us, l2),
            _ => false,
        }
        &&& after.breaker().same_settings(&before.breaker())
        &&& if throttled {
            &&& after.breaker().same_as(&before.breaker())
            &&& step matches CallStep::Finished { result: Err(WeirError::RateLimited(m)), report }
            &&& m@ == throttle_text()
            &&& report == report_of(after.breaker(), now_us, None)
        } else if blocks(before.breaker().phase(), now_us) {
            &&& after.breaker().same_as(&before.breaker())
            &&& step matches CallStep::Finished { result: Err(WeirError::CircuitOpen(m)), report }
            &&& m@ == rejection_text(before.breaker().label())
            &&& report == report_of(after.breaker(), now_us, None)
        } else {
            &&& after.breaker().phase() == admitted_phase(before.breaker().phase(), now_us)
            &&& after.breaker().failures() == before.breaker().failures()
            &&& step is Invoke
        }
    }

    /// Wraps the backend `name` with the resilience settings `r`. The rate
    /// limiter is left out when the rate is 0; its bucket starts full at `now_us`.
    pub fn new(name: &str, r: &ResolvedResilience, now_us: u64) -> (rb: ResilientBackend)
        ensures
            rb.wf(),
            rb.name_spec() == name@,
            rb.policy() == (RetryPolicy {
                max_attempts: r.retry_attempts,
                base_delay_ms: r.base_delay_ms,
                max_delay_ms: r.max_delay_ms,
            }),
            rb.breaker().phase() is Closed,
            rb.breaker().failures() == 0,
            rb.breaker().threshold() == r.failure_threshold,
            rb.breaker().recovery() == r.recovery_secs,
            rb.breaker().label() == name@,
            r.rate_limit_millirps == 0 ==> rb.limiter() is None,
            r.rate_limit_millirps > 0 ==> (rb.limiter() matches Some(l) && l.rate() == r.rate_limit_millirps
                && l.tokens() == crate::resilience::rate_limit::capacity(r.rate_limit_millirps)
                && l.last_refill() == now_us),
    {
        let retry = RetryPolicy {
            max_attempts: r.retry_attempts,
            base_delay_ms: r.base_delay_ms,
            max_delay_ms: r.max_delay_ms,
        };
        let breaker = CircuitBreaker::new(name, r.failure_threshold, r.recovery_secs);
        let limiter = if r.rate_limit_millirps > 0 {
            Some(RateLimiter::new(r.rate_limit_millirps, now_us))
        } else {
            None
        };
        ResilientBackend { name: String::from_str(name), retry, breaker, limiter }
    }

    /// The backend's name.
    pub fn name(&self) -> (r: &str)
        ensures
            r@ == self.name_spec(),
    {
        self.name.as_str()
    }

    fn finish(&self, result: Result<ChatResponse>, started_us: u64, now_us: u64) -> (step: CallStep)
        ensures
            step matches CallStep::Finished { result: r, report } && r == result && report == report_of(
                self.breaker(),
                now_us,
                latency_of(result, started_us, now_us),
            ),
    {
        let latency_ms = match &result {
            Ok(_) => Some(
                if now_us >= started_us {
                    (now_us - started_us) / 1000
                } else {
                    0
                },
            ),
            Err(_) => None,
        };
        let (code, secs) = circuit_code(self.breaker.state(now_us));
        CallStep::Finished { result, report: OpReport { latency_ms, circuit_code: code, circuit_open_secs: secs } }
    }

    /// Records the report of a finishing step under this backend's name.
    fn record_step(&self, metrics: &mut Metrics, step: &CallStep)
        requires
            old(metrics).wf(),
        ensures
            final(metrics).wf(),
            step_metrics(*old(metrics), *final(metrics), self.name_spec(), *step),
    {
        if let CallStep::Finished { report, .. } = step {
            match report.latency_ms {
                Some(ms) => metrics.record_success(self.name.as_str(), ms),
                None => metrics.record_error(self.name.as_str()),
            }
            metrics.set_circuit(self.name.as_str(), report.circuit_code, report.circuit_open_secs);
        }
    }

    fn run_admission(&mut self, call: &mut ResilientCall, now_us: u64) -> (step: CallStep)
        requires
            old(self).wf(),
            old(self).runs(*old(call)),
        ensures
            final(self).wf(),
            final(self).runs(*final(call)),
            ResilientBackend::admission(*old(self), now_us, *final(self), step),
            final(call).started() == old(call).started(),
            final(call).retry().attempt_spec() == old(call).retry().attempt_spec(),
    {
        if let Some(l) = &mut self.limiter {
            let a = l.acquire(now_us);
            if let Err(e) = a {
                let s = call.retry.on_outcome::<ChatResponse>(Err(e));
                return match s {
                    RetryStep::Done(result) => self.finish(result, call.started_us, now_us),
                    RetryStep::Call { .. } => {
                        assert(false);
                        CallStep::Invoke
                    },
                };
            }
        }
        let a = self.breaker.allow_request(now_us);
        if let Err(e) = a {
            let s = call.retry.on_outcome::<ChatResponse>(Err(e));
            return match s {
                RetryStep::Done(result) => self.finish(result, call.started_us, now_us),
                RetryStep::Call { .. } => {
                    assert(false);
                    CallStep::Invoke
                },
            };
        }
        CallStep::Invoke
    }

    /// Starts an operation at `now_us` with the first admission, recording
    /// the report in `metrics` when that already finishes it. A policy
    /// allowing no attempt is not accepted.
    pub fn begin(&mut self, now_us: u64, metrics: &mut Metrics) -> (r: (ResilientCall, CallStep))
        requires
            old(self).wf(),
            old(self).policy().max_attempts >= 1,
            old(metrics).wf(),
        ensures
            final(metrics).wf(),
            step_metrics(*old(metrics), *final(metrics), old(self).name_spec(), r.1),
            final(self).wf(),
            final(self).runs(r.0),
            r.0.started() == now_us,
            r.0.retry().attempt_spec() == 0,
            ResilientBackend::admission(*old(self), now_us, *final(self), r.1),
    {
        let (retry, _first) = RetryRun::start::<ChatResponse>(self.retry);
        let mut call = ResilientCall { retry, started_us: now_us };
        let step = self.run_admission(&mut call, now_us);
        self.record_step(metrics, &step);
        (call, step)
    }

    /// The backend's answer to the attempt in flight, at `now_us`. The breaker
    /// records it; a retryable failure with attempts left waits for the backoff
    /// delay; anything else finishes the operation with the outcome, and its
    /// report is recorded in `metrics`.
    pub fn on_response(
        &mut self,
        call: &mut ResilientCall,
        outcome: Result<ChatResponse>,
        now_us: u64,
        metrics: &mut Metrics,
    ) -> (step: CallStep)
        requires
            old(self).wf(),
            old(self).runs(*old(call)),
            old(metrics).wf(),
        ensures
            final(metrics).wf(),
            step_metrics(*old(metrics), *final(metrics), old(self).name_spec(), step),
            final(self).wf(),
            final(self).runs(*final(call)),
            final(self).name_spec() == old(self).name_spec(),
            final(self).policy() == old(self).policy(),
            final(self).limiter() == old(self).limiter(),
            final(self).breaker().same_settings(&old(self).breaker()),
            (final(self).breaker().phase(), final(self).breaker().failures()) == recorded(
                old(self).breaker().phase(),
                old(self).breaker().failures(),
                old(self).breaker().threshold(),
                old(self).breaker().recovery(),
                outcome is Ok,
                now_us,
            ),
            final(call).started() == old(call).started(),
            old(call).retry().retries(outcome) ==> {
                &&& final(call).retry().attempt_spec() == old(call).retry().attempt_spec() + 1
                &&& step == CallStep::Wait(
                    backoff_ms(
                        old(self).policy().base_delay_ms,
                        old(self).policy().max_delay_ms,
                        final(call).retry().attempt_spec(),
                    ) as u64,
                )
            },
            !old(call).retry().retries(outcome) ==> (step matches CallStep::Finished { result, report }
                && result == outcome && report == report_of(
                final(self).breaker(),
                now_us,
                latency_of(outcome, old(call).started(), now_us),
            )),
    {
        self.breaker.record(outcome.is_ok(), now_us);
        let s = call.retry.on_outcome(outcome);
        let step = match s {
            RetryStep::Call { wait_ms } => match wait_ms {
                Some(w) => CallStep::Wait(w),
                None => {
                    assert(false);
                    CallStep::Wait(0)
                },
            },
            RetryStep::Done(result) => self.finish(result, call.started_us, now_us),
        };
        self.record_step(metrics, &step);
        step
    }

    /// The backoff wait is over at `now_us`: the next attempt goes through
    /// admission again; a rejection finishes the operation, and its report is
    /// recorded in `metrics`.
    pub fn after_wait(&mut self, call: &mut ResilientCall, now_us: u64, metrics: &mut Metrics) -> (step: CallStep)
        requires
            old(self).wf(),
            old(self).runs(*old(call)),
            old(metrics).wf(),
        ensures
            final(metrics).wf(),
            step_metrics(*old(metrics), *final(metrics), old(self).name_spec(), step),
            final(self).wf(),
            final(self).runs(*final(call)),
            final(call).started() == old(call).started(),
            final(call).retry().attempt_spec() == old(call).retry().attempt_spec(),
            ResilientBackend::admission(*old(self), now_us, *final(self), step),
    {
        let step = self.run_admission(call, now_us);
        self.record_step(metrics, &step);
        step
    }
}

} // verus!
