use weir::observability::metrics::{
    circuit_code, circuit_label, BackendMetrics, Metrics, CIRCUIT_CLOSED, CIRCUIT_HALF_OPEN, CIRCUIT_OPEN,
};
use weir::resilience::circuit_breaker::CircuitState;

#[test]
fn record_success_and_error_keep_counts_consistent() {
    let mut m = BackendMetrics::new();
    m.record_success(40);
    m.record_error();
    m.record_success(60);
    assert_eq!(m.requests_total, 3);
    assert_eq!(m.errors_total, 1);
    assert_eq!(m.latency_count, 2);
    assert_eq!(m.latency_sum_ms, 100);
    assert_eq!(m.requests_total, m.errors_total + m.latency_count);
}

#[test]
fn counters_wrap_like_atomics() {
    let mut m = BackendMetrics::new();
    m.latency_sum_ms = u64::MAX;
    m.record_success(2);
    assert_eq!(m.latency_sum_ms, 1);
}

#[test]
fn registry_creates_entries_once_in_order() {
    let mut reg = Metrics::new();
    let a = reg.get_or_create("a");
    let b = reg.get_or_create("b");
    let a2 = reg.get_or_create("a");
    assert_eq!((a, b, a2), (0, 1, 0));
    reg.record_success("b", 5);
    reg.record_error("a");
    let names: Vec<&str> = reg.backends().iter().map(|e| e.name.as_str()).collect();
    assert_eq!(names, vec!["a", "b"]);
    assert_eq!(reg.backends()[0].metrics.errors_total, 1);
    assert_eq!(reg.backends()[1].metrics.latency_sum_ms, 5);
}

#[test]
fn circuit_codes_and_labels() {
    assert_eq!(circuit_code(CircuitState::Closed), (CIRCUIT_CLOSED, 0));
    assert_eq!(circuit_code(CircuitState::Open { secs_until_probe: 7 }), (CIRCUIT_OPEN, 7));
    assert_eq!(circuit_code(CircuitState::HalfOpen), (CIRCUIT_HALF_OPEN, 0));
    assert_eq!(circuit_label(CIRCUIT_CLOSED), "closed");
    assert_eq!(circuit_label(CIRCUIT_OPEN), "open");
    assert_eq!(circuit_label(CIRCUIT_HALF_OPEN), "half-open");
}
