//! weir: a CLI-agent orchestrator. This crate holds its verified core:
//! configuration validation, workflow planning, the workflow engines as
//! state machines, the resilience primitives and the metrics arithmetic.

pub mod backends;
pub mod cli;
pub mod config;
pub mod engine;
pub mod error;
pub mod observability;
pub mod resilience;
pub mod text;
