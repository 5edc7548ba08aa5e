//! Resilience primitives: retry with exponential backoff, a half-open circuit
//! breaker, a token-bucket rate limiter, and the decorator that layers them
//! around a backend call.

pub mod circuit_breaker;
pub mod rate_limit;
pub mod resilient_backend;
pub mod retry;
