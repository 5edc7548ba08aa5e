//! Half-open circuit breaker.
//!
//! - **Closed**: normal operation; consecutive failures are counted.
//! - **Open**: requests are rejected at once until the recovery window ends.
//! - **HalfOpen**: one probe request is let through to test recovery.
//!
//! Time is a monotonic clock reading in microseconds, supplied by the caller.

use crate::error::{Result, WeirError};
use vstd::prelude::*;
use vstd::string::*;

verus! {

/// Microseconds in a second.
pub const MICROS_PER_SEC: u64 = 1_000_000;

/// The breaker's internal state.
#[derive(Debug, Clone, Copy, PartialEq, Eq)]
pub enum BreakerPhase {
    Closed,
    /// Rejecting until the clock reaches `until_us`.
    Open { until_us: u64 },
    HalfOpen,
}

/// A snapshot of the breaker's state, for metrics and status. `Open` carries
/// the whole seconds left until a recovery probe is allowed (0 once due).
#[derive(Debug, Clone, Copy, PartialEq, Eq)]
pub enum CircuitState {
    Closed,
    Open { secs_until_probe: u64 },
    HalfOpen,
}

/// The clock reading at which a window of `recovery_secs` opened at `now_us`
/// ends (saturating at the clock's range).
pub open spec fn recovery_end(now_us: u64, recovery_secs: u64) -> u64 {
    let end = now_us + recovery_secs * MICROS_PER_SEC;
    if end > u64::MAX {
        u64::MAX
    } else {
        end as u64
    }
}

/// Phase and failure count after a call's outcome is recorded.
pub open spec fn recorded(
    phase: BreakerPhase,
    failures: u32,
    threshold: u32,
    recovery_secs: u64,
    success: bool,
    now_us: u64,
) -> (BreakerPhase, u32) {
    match phase {
        BreakerPhase::HalfOpen => if success {
            (BreakerPhase::Closed, 0)
        } else {
            (BreakerPhase::Open { until_us: recovery_end(now_us, recovery_secs) }, failures)
        },
        BreakerPhase::Closed => if success {
            (BreakerPhase::Closed, 0)
        } else {
            let f = (failures + 1) as u32;
            if f >= threshold {
                (BreakerPhase::Open { until_us: recovery_end(now_us, recovery_secs) }, f)
            } else {
                (BreakerPhase::Closed, f)
            }
        },
        BreakerPhase::Open { .. } => (phase, failures),
    }
}

/// Whether an open circuit still rejects requests at `now_us`.
pub open spec fn blocks(phase: BreakerPhase, now_us: u64) -> bool {
    phase matches BreakerPhase::Open { until_us } && now_us < until_us
}

/// The phase after a request is let through at `now_us`: an open circuit
/// whose window has ended becomes half-open.
pub open spec fn admitted_phase(phase: BreakerPhase, now_us: u64) -> BreakerPhase {
    match phase {
        BreakerPhase::Open { .. } => BreakerPhase::HalfOpen,
        _ => phase,
    }
}

/// The snapshot of `phase` at `now_us`.
pub open spec fn snapshot(phase: BreakerPhase, now_us: u64) -> CircuitState {
    match phase {
        BreakerPhase::Closed => CircuitState::Closed,
        BreakerPhase::HalfOpen => CircuitState::HalfOpen,
        BreakerPhase::Open { until_us } => CircuitState::Open {
            secs_until_probe: if until_us > now_us {
                ((until_us - now_us) / (MICROS_PER_SEC as int)) as u64
            } else {
                0
            },
        },
    }
}

/// "backend '<name>' — request rejected"
pub open spec fn rejection_text(name: Seq<char>) -> Seq<char> {
    "backend '"@ + name + "' — request rejected"@
}

/// A circuit breaker for one backend.
pub struct CircuitBreaker {
    phase: BreakerPhase,
    failures: u32,
    failure_threshold: u32,
    recovery_secs: u64,
    name: String,
}

impl CircuitBreaker {
    pub closed spec fn phase(&self) -> BreakerPhase {
        self.phase
    }

    /// Consecutive failures counted.
    pub closed spec fn failures(&self) -> u32 {
        self.failures
    }

    /// Consecutive failures that open the circuit.
    pub closed spec fn threshold(&self) -> u32 {
        self.failure_threshold
    }

    /// Seconds the circuit stays open before a probe.
    pub closed spec fn recovery(&self) -> u64 {
        self.recovery_secs
    }

    /// The label used in rejection messages.
    pub closed spec fn label(&self) -> Seq<char> {
        self.name@
    }

    /// `other` has the same threshold, recovery window and label.
    pub open spec fn same_settings(&self, other: &CircuitBreaker) -> bool {
        &&& self.threshold() == other.threshold()
        &&& self.recovery() == other.recovery()
        &&& self.label() == other.label()
    }

    /// `other` is in the same state with the same settings.
    pub open spec fn same_as(&self, other: &CircuitBreaker) -> bool {
        &&& self.same_settings(other)
        &&& self.phase() == other.phase()
        &&& self.failures() == other.failures()
    }

    /// While closed, the count stays below the threshold (or is zero).
    pub open spec fn wf(&self) -> bool {
        self.phase() is Closed ==> (self.failures() == 0 || self.failures() < self.threshold())
    }

    /// A closed breaker with no failures counted.
    /// * `name`: label used in rejection messages;
    /// * `failure_threshold`: consecutive failures before opening;
    /// * `recovery_secs`: how long to stay open before probing.
    pub fn new(name: &str, failure_threshold: u32, recovery_secs: u64) -> (cb: CircuitBreaker)
        ensures
            cb.wf(),
            cb.phase() == BreakerPhase::Closed,
            cb.failures() == 0,
            cb.threshold() == failure_threshold,
            cb.recovery() == recovery_secs,
            cb.label() == name@,
    {
        CircuitBreaker {
            phase: BreakerPhase::Closed,
            failures: 0,
            failure_threshold,
            recovery_secs,
            name: String::from_str(name),
        }
    }

    /// A snapshot of the state at `now_us`. An open circuit whose window has
    /// ended is reported as open with 0 seconds left; only the next admission
    /// turns it half-open.
    pub fn state(&self, now_us: u64) -> (s: CircuitState)
        ensures
            s == snapshot(self.phase(), now_us),
    {
        match self.phase {
            BreakerPhase::Closed => CircuitState::Closed,
            BreakerPhase::HalfOpen => CircuitState::HalfOpen,
            BreakerPhase::Open { until_us } => {
                let secs = if until_us > now_us {
                    (until_us - now_us) / MICROS_PER_SEC
                } else {
                    0
                };
                CircuitState::Open { secs_until_probe: secs }
            },
        }
    }

    /// Admission of a request at `now_us`: an open circuit rejects it with
    /// `CircuitOpen` until its window ends, and then lets it through as the
    /// half-open probe. A closed or half-open circuit lets it through.
    pub fn allow_request(&mut self, now_us: u64) -> (r: Result<()>)
        requires
            old(self).wf(),
        ensures
            final(self).wf(),
            final(self).failures() == old(self).failures(),
            final(self).threshold() == old(self).threshold(),
            final(self).recovery() == old(self).recovery(),
            final(self).label() == old(self).label(),
            match old(self).phase() {
                BreakerPhase::Open { until_us } => if now_us < until_us {
                    &&& r matches Err(WeirError::CircuitOpen(m))
                    &&& m@ == rejection_text(old(self).label())
                    &&& final(self).phase() == old(self).phase()
                } else {
                    r is Ok && final(self).phase() == BreakerPhase::HalfOpen
                },
                _ => r is Ok && final(self).phase() == old(self).phase(),
            },
    {
        match self.phase {
            BreakerPhase::Open { until_us } => {
                if now_us < until_us {
                    let mut m = String::from_str("backend '");
                    m.append(self.name.as_str());
                    m.append("' — request rejected");
                    return Err(WeirError::CircuitOpen(m));
                }
                self.phase = BreakerPhase::HalfOpen;
                Ok(())
            },
            _ => Ok(()),
        }
    }

    /// Records the outcome of an admitted call at `now_us`: a half-open probe
    /// closes the circuit on success and reopens it on failure; while closed, a
    /// success resets the count and a failure that reaches the threshold opens
    /// the circuit.
    pub fn record(&mut self, success: bool, now_us: u64)
        requires
            old(self).wf(),
        ensures
            final(self).wf(),
            (final(self).phase(), final(self).failures()) == recorded(
                old(self).phase(),
                old(self).failures(),
                old(self).threshold(),
                old(self).recovery(),
                success,
                now_us,
            ),
            final(self).threshold() == old(self).threshold(),
            final(self).recovery() == old(self).recovery(),
            final(self).label() == old(self).label(),
    {
        let until_us = match self.recovery_secs.checked_mul(MICROS_PER_SEC) {
            Some(d) => now_us.saturating_add(d),
            None => u64::MAX,
        };
        match self.phase {
            BreakerPhase::HalfOpen => {
                if success {
                    self.phase = BreakerPhase::Closed;
                    self.failures = 0;
                } else {
                    self.phase = BreakerPhase::Open { until_us };
                }
            },
            BreakerPhase::Closed => {
                if success {
                    self.failures = 0;
                } else {
                    self.failures = self.failures + 1;
                    if self.failures >= self.failure_threshold {
                        self.phase = BreakerPhase::Open { until_us };
                    }
                }
            },
            BreakerPhase::Open { .. } => {},
        }
    }
}

/// Phase and count after `k` consecutive failures from `(phase, failures)`,
/// all recorded at `now_us`.
pub open spec fn after_failures(
    phase: BreakerPhase,
    failures: u32,
    threshold: u32,
    recovery_secs: u64,
    now_us: u64,
    k: nat,
) -> (BreakerPhase, u32)
    decreases k,
{
    if k == 0 {
        (phase, failures)
    } else {
        let prev = after_failures(phase, failures, threshold, recovery_secs, now_us, (k - 1) as nat);
        recorded(prev.0, prev.1, threshold, recovery_secs, false, now_us)
    }
}

proof fn lemma_failures_below_threshold(threshold: u32, recovery_secs: u64, now_us: u64, k: nat)
    requires
        k < threshold,
    ensures
        after_failures(BreakerPhase::Closed, 0, threshold, recovery_secs, now_us, k) == (
            BreakerPhase::Closed,
            k as u32,
        ),
    decreases k,
{
    if k > 0 {
        lemma_failures_below_threshold(threshold, recovery_secs, now_us, (k - 1) as nat);
    }
}

/// Phase and count after `k` consecutive failures of a fresh breaker.
pub open spec fn fresh_after_failures(threshold: u32, recovery_secs: u64, now_us: u64, k: nat) -> (BreakerPhase, u32) {
    after_failures(BreakerPhase::Closed, 0, threshold, recovery_secs, now_us, k)
}

/// From a fresh (closed, zero-count) breaker with a threshold of `t >= 1`,
/// each of the first `t - 1` consecutive failures keeps the circuit closed and
/// counts one, and the `t`-th opens it for the recovery window.
pub proof fn law_threshold_failures_open(threshold: u32, recovery_secs: u64, now_us: u64, k: nat)
    requires
        threshold >= 1,
        k <= threshold,
    ensures
        k < threshold ==> (fresh_after_failures(threshold, recovery_secs, now_us, k).0 is Closed),
        k < threshold ==> fresh_after_failures(threshold, recovery_secs, now_us, k).1 == k,
        k == threshold ==> fresh_after_failures(threshold, recovery_secs, now_us, k).0 == (BreakerPhase::Open {
            until_us: recovery_end(now_us, recovery_secs),
        }),
{
    if k < threshold {
        lemma_failures_below_threshold(threshold, recovery_secs, now_us, k);
    } else {
        lemma_failures_below_threshold(threshold, recovery_secs, now_us, (k - 1) as nat);
    }
}

/// A half-open probe decides the circuit. A success closes it with a zero
/// count. A failure at `now_us` reopens it, keeping the count, until
/// `recovery_secs` whole seconds after `now_us` (the clock's last reading when
/// that is past its range): every request from `now_us` up to that instant is
/// rejected, the state reads as open, and the first request at that instant
/// goes through again.
pub proof fn law_probe_outcome(failures: u32, threshold: u32, recovery_secs: u64, now_us: u64, later_us: u64)
    ensures
        recorded(BreakerPhase::HalfOpen, failures, threshold, recovery_secs, true, now_us) == (
            BreakerPhase::Closed,
            0u32,
        ),
        ({
            let (p, f) = recorded(BreakerPhase::HalfOpen, failures, threshold, recovery_secs, false, now_us);
            let end: int = if now_us + recovery_secs * 1_000_000 <= u64::MAX {
                now_us + recovery_secs * 1_000_000
            } else {
                u64::MAX as int
            };
            &&& f == failures
            &&& p matches BreakerPhase::Open { until_us } && until_us == end
            &&& now_us <= later_us < end ==> blocks(p, later_us) && snapshot(p, later_us) is Open
            &&& later_us >= end ==> !blocks(p, later_us) && admitted_phase(p, later_us) is HalfOpen
        }),
{
}

/// While the circuit is closed, a success clears the failure count; a
/// failure counts one more, and opens the circuit for the recovery window
/// from `now_us` exactly when the count reaches the threshold. An outcome
/// recorded while open changes nothing.
pub proof fn law_closed_outcome(failures: u32, threshold: u32, recovery_secs: u64, now_us: u64, until_us: u64)
    requires
        failures < u32::MAX,
    ensures
        recorded(BreakerPhase::Closed, failures, threshold, recovery_secs, true, now_us) == (
            BreakerPhase::Closed,
            0u32,
        ),
        recorded(BreakerPhase::Closed, failures, threshold, recovery_secs, false, now_us).1 == failures + 1,
        failures + 1 < threshold ==> recorded(
            BreakerPhase::Closed,
            failures,
            threshold,
            recovery_secs,
            false,
            now_us,
        ).0 is Closed,
        failures + 1 >= threshold ==> recorded(
            BreakerPhase::Closed,
            failures,
            threshold,
            recovery_secs,
            false,
            now_us,
        ).0 == (BreakerPhase::Open { until_us: recovery_end(now_us, recovery_secs) }),
        forall|success: bool|
            #[trigger] recorded(BreakerPhase::Open { until_us }, failures, threshold, recovery_secs, success, now_us)
                == (BreakerPhase::Open { until_us }, failures),
{
}

} // verus!
