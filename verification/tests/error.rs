use weir::error::{exit_code_for, is_retryable, WeirError};

#[test]
fn messages_and_exit_codes() {
    let cases = vec![
        (WeirError::Config("x".into()), "config error: x", 1),
        (WeirError::BackendNotFound("b".into()), "backend 'b' not found", 1),
        (WeirError::Backend("x".into()), "backend error: x", 2),
        (WeirError::WorkflowNotFound("w".into()), "workflow 'w' not found", 1),
        (WeirError::Validation("x".into()), "validation failed: x", 1),
        (WeirError::CircuitOpen("x".into()), "circuit open: x", 2),
        (WeirError::RateLimited("x".into()), "rate limited: x", 2),
        (WeirError::Io("x".into()), "io error: x", 2),
        (WeirError::Json("x".into()), "json error: x", 2),
    ];
    for (e, text, code) in cases {
        assert_eq!(e.message(), text);
        assert_eq!(exit_code_for(&e), code);
    }
}

#[test]
fn only_backend_errors_are_retryable() {
    assert!(is_retryable(&WeirError::Backend("x".into())));
    assert!(!is_retryable(&WeirError::RateLimited("x".into())));
    assert!(!is_retryable(&WeirError::CircuitOpen("x".into())));
    assert!(!is_retryable(&WeirError::Config("x".into())));
}
