//! Per-backend metrics and their delta-based persistence.

pub mod metrics;
pub mod persist;
