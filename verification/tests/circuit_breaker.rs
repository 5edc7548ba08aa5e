use weir::error::WeirError;
use weir::resilience::circuit_breaker::{BreakerPhase, CircuitBreaker, CircuitState};

/// One call through the breaker at `now_us` whose backend answers `ok`.
fn call(cb: &mut CircuitBreaker, now_us: u64, ok: bool) -> Result<(), WeirError> {
    cb.allow_request(now_us)?;
    cb.record(ok, now_us);
    if ok {
        Ok(())
    } else {
        Err(WeirError::Backend("boom".into()))
    }
}

#[test]
fn opens_after_threshold_failures() {
    let mut cb = CircuitBreaker::new("test", 3, 60);
    for _ in 0..3 {
        let _ = call(&mut cb, 0, false);
    }
    let result = call(&mut cb, 0, true);
    assert!(result.is_err());
    let msg = result.unwrap_err().message();
    assert!(msg.contains("circuit open"), "unexpected message: {msg}");
}

#[test]
fn success_resets_failure_count() {
    let mut cb = CircuitBreaker::new("test", 3, 60);
    let _ = call(&mut cb, 0, false);
    let _ = call(&mut cb, 0, false);
    let _ = call(&mut cb, 0, true);
    let _ = call(&mut cb, 0, false);
    let _ = call(&mut cb, 0, false);
    let result = call(&mut cb, 0, true);
    assert!(result.is_ok());
}

#[test]
fn half_open_success_closes_circuit() {
    let mut cb = CircuitBreaker::new("test", 2, 0);
    let _ = call(&mut cb, 5, false);
    let _ = call(&mut cb, 5, false);
    let result = call(&mut cb, 5, true);
    assert!(result.is_ok());
    assert!(call(&mut cb, 5, true).is_ok());
}

#[test]
fn half_open_failure_reopens_circuit() {
    let mut cb = CircuitBreaker::new("test", 2, 0);
    let _ = call(&mut cb, 5, false);
    let _ = call(&mut cb, 5, false);
    let _ = call(&mut cb, 5, false);
    let _ = call(&mut cb, 5, true);
    assert!(call(&mut cb, 5, true).is_ok());
}

#[test]
fn rejection_message_names_the_backend() {
    let mut cb = CircuitBreaker::new("agy", 1, 30);
    let _ = call(&mut cb, 0, false);
    let err = call(&mut cb, 1_000_000, true).unwrap_err();
    assert_eq!(err, WeirError::CircuitOpen("backend 'agy' — request rejected".into()));
    assert_eq!(err.message(), "circuit open: backend 'agy' — request rejected");
}

#[test]
fn open_window_counts_down_then_probes() {
    let mut cb = CircuitBreaker::new("b", 1, 30);
    let _ = call(&mut cb, 0, false);
    assert_eq!(cb.state(0), CircuitState::Open { secs_until_probe: 30 });
    assert_eq!(cb.state(10_500_000), CircuitState::Open { secs_until_probe: 19 });
    assert_eq!(cb.state(31_000_000), CircuitState::Open { secs_until_probe: 0 });
    // Still rejected just before the window ends.
    assert!(cb.allow_request(29_999_999).is_err());
    // At the end of the window the request goes through as the probe.
    assert!(cb.allow_request(30_000_000).is_ok());
    assert_eq!(cb.state(30_000_000), CircuitState::HalfOpen);
}

#[test]
fn closed_state_snapshot() {
    let cb = CircuitBreaker::new("b", 5, 30);
    assert_eq!(cb.state(123), CircuitState::Closed);
    let _ = BreakerPhase::Closed;
}
