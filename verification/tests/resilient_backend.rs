use weir::backends::ChatResponse;
use weir::config::ResolvedResilience;
use weir::error::WeirError;
use weir::observability::metrics::{BackendMetrics, Metrics, CIRCUIT_CLOSED, CIRCUIT_OPEN};
use weir::resilience::resilient_backend::{CallStep, ResilientBackend};

fn resolved(retry_attempts: u32, failure_threshold: u32, rate_limit_millirps: u64) -> ResolvedResilience {
    ResolvedResilience {
        retry_attempts,
        base_delay_ms: 0,
        max_delay_ms: 0,
        failure_threshold,
        recovery_secs: 30,
        rate_limit_millirps,
    }
}

/// A backend that fails its first `fail_until` calls (or every call), then
/// answers "ok"; counts its calls.
struct Mock {
    calls: u32,
    fail_until: u32,
    always_fail: bool,
}

impl Mock {
    fn chat(&mut self) -> Result<ChatResponse, WeirError> {
        let n = self.calls;
        self.calls += 1;
        if self.always_fail || n < self.fail_until {
            Err(WeirError::Backend("mock fail".into()))
        } else {
            Ok(ChatResponse::plain("m", "ok"))
        }
    }
}

/// Runs one logical operation to its end, sleeping by advancing the clock;
/// the steps record its report in `metrics`.
fn run_op(rb: &mut ResilientBackend, mock: &mut Mock, metrics: &mut Metrics, now: &mut u64) -> Result<ChatResponse, WeirError> {
    let (mut call, mut step) = rb.begin(*now, metrics);
    loop {
        match step {
            CallStep::Invoke => {
                *now += 1_000;
                let out = mock.chat();
                step = rb.on_response(&mut call, out, *now, metrics);
            }
            CallStep::Wait(ms) => {
                *now += ms * 1_000;
                step = rb.after_wait(&mut call, *now, metrics);
            }
            CallStep::Finished { result, .. } => return result,
        }
    }
}

/// The metrics of the backend "m".
fn stats(m: &Metrics) -> BackendMetrics {
    m.backends().iter().find(|e| e.name == "m").map(|e| e.metrics).unwrap_or_else(BackendMetrics::new)
}

#[test]
fn success_records_one_request() {
    let mut mock = Mock { calls: 0, fail_until: 0, always_fail: false };
    let mut metrics = Metrics::new();
    let mut now = 0u64;
    let mut rb = ResilientBackend::new("m", &resolved(3, 5, 0), now);
    let resp = run_op(&mut rb, &mut mock, &mut metrics, &mut now).unwrap();
    assert_eq!(resp.content, "ok");
    assert_eq!(mock.calls, 1);
    assert_eq!(stats(&metrics).requests_total, 1);
    assert_eq!(stats(&metrics).errors_total, 0);
}

#[test]
fn retries_then_succeeds_records_one_op() {
    let mut mock = Mock { calls: 0, fail_until: 2, always_fail: false };
    let mut metrics = Metrics::new();
    let mut now = 0u64;
    let mut rb = ResilientBackend::new("m", &resolved(3, 5, 0), now);
    let resp = run_op(&mut rb, &mut mock, &mut metrics, &mut now).unwrap();
    assert_eq!(resp.content, "ok");
    assert_eq!(mock.calls, 3);
    assert_eq!(stats(&metrics).requests_total, 1);
    assert_eq!(stats(&metrics).errors_total, 0);
}

#[test]
fn rate_limit_is_fail_fast_not_retried() {
    // 0.4 requests per second: a bucket of 0.8 tokens refuses the first request.
    let mut mock = Mock { calls: 0, fail_until: 0, always_fail: false };
    let mut metrics = Metrics::new();
    let mut now = 0u64;
    let mut rb = ResilientBackend::new("m", &resolved(3, 5, 400), now);
    let err = run_op(&mut rb, &mut mock, &mut metrics, &mut now).unwrap_err();
    assert!(matches!(err, WeirError::RateLimited(_)));
    assert_eq!(mock.calls, 0);
    assert_eq!(stats(&metrics).errors_total, 1);
}

#[test]
fn circuit_opens_then_fails_fast() {
    let mut mock = Mock { calls: 0, fail_until: 0, always_fail: true };
    let mut metrics = Metrics::new();
    let mut now = 0u64;
    let mut rb = ResilientBackend::new("m", &resolved(1, 2, 0), now);
    let _ = run_op(&mut rb, &mut mock, &mut metrics, &mut now);
    assert_eq!(stats(&metrics).circuit_state, CIRCUIT_CLOSED);
    let _ = run_op(&mut rb, &mut mock, &mut metrics, &mut now);
    let after_trip = mock.calls;
    assert_eq!(after_trip, 2);
    let err = run_op(&mut rb, &mut mock, &mut metrics, &mut now).unwrap_err();
    assert!(matches!(err, WeirError::CircuitOpen(_)));
    assert_eq!(mock.calls, after_trip);
    assert_eq!(stats(&metrics).circuit_state, CIRCUIT_OPEN);
    assert_eq!(stats(&metrics).circuit_open_secs, 30);
}

#[test]
fn success_reports_latency_in_milliseconds() {
    let mut mock = Mock { calls: 0, fail_until: 1, always_fail: false };
    let mut metrics = Metrics::new();
    let mut now = 0u64;
    let policy = ResolvedResilience { base_delay_ms: 100, max_delay_ms: 5000, ..resolved(3, 5, 0) };
    let mut rb = ResilientBackend::new("m", &policy, now);
    run_op(&mut rb, &mut mock, &mut metrics, &mut now).unwrap();
    // 1 ms per call, 237 ms of backoff before the second attempt.
    assert_eq!(stats(&metrics).latency_sum_ms, 239);
    assert_eq!(stats(&metrics).latency_count, 1);
    assert_eq!(stats(&metrics).requests_total, stats(&metrics).errors_total + stats(&metrics).latency_count);
}
