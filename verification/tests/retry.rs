use weir::error::WeirError;
use weir::resilience::retry::{compute_delay_ms, RetryPolicy, RetryRun, RetryStep};

/// Drives one retried operation: `f(i)` is the outcome of the `i`-th call.
/// Returns the final result, the number of calls, and the waits requested.
fn drive<T>(policy: RetryPolicy, mut f: impl FnMut(u32) -> Result<T, WeirError>) -> (Result<T, WeirError>, u32, Vec<u64>) {
    let (mut run, mut step) = RetryRun::start::<T>(policy);
    let mut calls = 0u32;
    let mut waits = Vec::new();
    loop {
        match step {
            RetryStep::Call { wait_ms } => {
                if let Some(w) = wait_ms {
                    waits.push(w);
                }
                let out = f(calls);
                calls += 1;
                step = run.on_outcome(out);
            }
            RetryStep::Done(r) => return (r, calls, waits),
        }
    }
}

#[test]
fn compute_delay_stays_within_max() {
    let policy = RetryPolicy { base_delay_ms: 100, max_delay_ms: 5000, max_attempts: 10 };
    for attempt in 0..20 {
        let d = compute_delay_ms(&policy, attempt);
        assert!(d <= policy.max_delay_ms, "delay {d} exceeded max at attempt {attempt}");
    }
}

#[test]
fn compute_delay_grows_with_attempt() {
    let policy = RetryPolicy::default();
    let d1 = compute_delay_ms(&policy, 1);
    let d2 = compute_delay_ms(&policy, 2);
    assert!(d2 >= d1, "delay should be non-decreasing");
}

#[test]
fn succeeds_on_first_try() {
    let policy = RetryPolicy::default();
    let (result, calls, _) = drive(policy, |_| Ok(42));
    assert_eq!(result.unwrap(), 42);
    assert_eq!(calls, 1);
}

#[test]
fn retries_and_succeeds() {
    let policy = RetryPolicy { max_attempts: 3, base_delay_ms: 0, max_delay_ms: 0 };
    let (result, calls, _) = drive(policy, |n| {
        if n < 2 {
            Err(WeirError::Backend("transient".into()))
        } else {
            Ok(n)
        }
    });
    assert!(result.is_ok());
    assert_eq!(calls, 3);
}

#[test]
fn does_not_retry_non_retryable_errors() {
    let policy = RetryPolicy { max_attempts: 5, base_delay_ms: 0, max_delay_ms: 0 };
    let (result, calls, _) = drive::<()>(policy, |_| Err(WeirError::Config("fatal".into())));
    assert!(result.is_err());
    assert_eq!(calls, 1);
}

#[test]
fn backoff_exact_values() {
    let policy = RetryPolicy::default();
    // 100 * 2^1 + 37, 100 * 2^2 + 74, 100 * 2^3 + 11, then capped at 5000.
    assert_eq!(compute_delay_ms(&policy, 1), 237);
    assert_eq!(compute_delay_ms(&policy, 2), 474);
    assert_eq!(compute_delay_ms(&policy, 3), 811);
    assert_eq!(compute_delay_ms(&policy, 6), 5000);
    assert_eq!(compute_delay_ms(&policy, 0), 100);
}

#[test]
fn backoff_saturates_instead_of_overflowing() {
    let policy = RetryPolicy { max_attempts: 3, base_delay_ms: u64::MAX, max_delay_ms: u64::MAX };
    assert_eq!(compute_delay_ms(&policy, 40), u64::MAX);
    let small = RetryPolicy { max_attempts: 3, base_delay_ms: 1, max_delay_ms: u64::MAX };
    // The exponent is capped at 31.
    assert_eq!(compute_delay_ms(&small, 40), (1u64 << 31) + (40 * 37) % 100);
}

#[test]
fn exhausted_attempts_return_last_error_and_wait_between() {
    let policy = RetryPolicy { max_attempts: 3, base_delay_ms: 100, max_delay_ms: 5000 };
    let (result, calls, waits) = drive::<()>(policy, |n| Err(WeirError::Backend(format!("fail {n}"))));
    assert_eq!(result, Err(WeirError::Backend("fail 2".into())));
    assert_eq!(calls, 3);
    assert_eq!(waits, vec![237, 474]);
}

#[test]
fn rate_limited_and_circuit_open_are_not_retried() {
    let policy = RetryPolicy { max_attempts: 5, base_delay_ms: 0, max_delay_ms: 0 };
    let (_, calls, _) = drive::<()>(policy, |_| Err(WeirError::RateLimited("x".into())));
    assert_eq!(calls, 1);
    let (_, calls, _) = drive::<()>(policy, |_| Err(WeirError::CircuitOpen("x".into())));
    assert_eq!(calls, 1);
}
