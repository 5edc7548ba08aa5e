use weir::error::WeirError;
use weir::resilience::rate_limit::RateLimiter;

#[test]
fn consumes_tokens_up_to_capacity() {
    // 10 requests per second: capacity 20.
    let mut rl = RateLimiter::new(10_000, 0);
    for _ in 0..20 {
        rl.acquire(0).expect("should succeed within capacity");
    }
}

#[test]
fn rejects_when_bucket_empty() {
    let mut rl = RateLimiter::new(2_000, 0);
    for _ in 0..4 {
        rl.acquire(0).unwrap();
    }
    let err = rl.acquire(0).unwrap_err();
    let text = err.message();
    assert!(text.contains("rate limit exceeded"), "unexpected error: {text}");
}

#[test]
fn refills_over_time() {
    // 1000 tokens per second, capacity 2000.
    let mut rl = RateLimiter::new(1_000_000, 0);
    for _ in 0..2000 {
        rl.acquire(0).unwrap();
    }
    // One second later 1000 tokens were earned.
    rl.acquire(1_000_000).expect("should succeed after refill");
}

#[test]
fn single_request_per_second_limiter() {
    let mut rl = RateLimiter::new(1_000, 0);
    assert!(rl.acquire(0).is_ok());
    assert!(rl.acquire(0).is_ok());
    assert!(rl.acquire(0).is_err());
}

#[test]
fn throttle_error_is_rate_limited() {
    let mut rl = RateLimiter::new(400, 0);
    assert_eq!(
        rl.acquire(0),
        Err(WeirError::RateLimited("rate limit exceeded — try again".into()))
    );
}

#[test]
fn refill_never_exceeds_capacity() {
    let mut rl = RateLimiter::new(1_000, 0);
    // A very long idle time still only fills the bucket (2 tokens).
    assert!(rl.acquire(3_600_000_000).is_ok());
    assert!(rl.acquire(3_600_000_000).is_ok());
    assert!(rl.acquire(3_600_000_000).is_err());
    // Half a second later half a token was earned: not enough.
    assert!(rl.acquire(3_600_500_000).is_err());
    // Another half second completes the token.
    assert!(rl.acquire(3_601_000_000).is_ok());
}
