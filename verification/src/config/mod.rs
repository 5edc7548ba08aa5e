//! The configuration model (`weir.toml`) and lookups over it.

pub mod validate;

use crate::error::{Result, WeirError};
use crate::text::{find_first, lemma_find_first_at, lemma_find_first_none, str_eq};
use vstd::prelude::*;
use vstd::string::*;

verus! {

/// Top-level configuration, mirroring `weir.toml`.
#[derive(Debug, Clone)]
pub struct Config {
    pub server: ServerConfig,
    /// `[[backend]]` entries.
    pub backends: Vec<BackendConfig>,
    /// `[[workflow]]` entries.
    pub workflows: Vec<WorkflowConfig>,
    /// `[resilience]` block.
    pub resilience: ResilienceConfig,
}

/// The `[server]` block.
#[derive(Debug, Clone)]
pub struct ServerConfig {
    pub name: String,
}

/// One backend definition.
#[derive(Debug, Clone)]
pub struct BackendConfig {
    pub name: String,
    pub kind: BackendKind,
    pub timeout_secs: u64,
    /// Model substituted for `{model}` when the caller gives none.
    pub default_model: Option<String>,
    /// Override of `[resilience].retry_attempts`.
    pub retry_attempts: Option<u32>,
    /// Override of `[resilience].failure_threshold`.
    pub failure_threshold: Option<u32>,
    /// Override of `[resilience].recovery_secs`.
    pub recovery_secs: Option<u64>,
    /// Override of `[resilience].rate_limit_millirps`.
    pub rate_limit_millirps: Option<u64>,
}

/// The kind of a backend. A local CLI agent run in oneshot mode is the only one.
#[derive(Debug, Clone)]
pub enum BackendKind {
    StdioCli {
        command: String,
        /// Argument template; `{prompt}` and `{model}` are substituted at call time.
        args: Vec<String>,
    },
}

/// Global resilience tuning; each backend may override part of it.
#[derive(Debug, Clone, Copy)]
pub struct ResilienceConfig {
    /// Total attempts (first try and retries) for transient failures.
    pub retry_attempts: u32,
    /// Base backoff delay before the first retry, in milliseconds.
    pub base_delay_ms: u64,
    /// Upper cap on the backoff delay, in milliseconds.
    pub max_delay_ms: u64,
    /// Consecutive failures before the circuit opens.
    pub failure_threshold: u32,
    /// Seconds the circuit stays open before a recovery probe.
    pub recovery_secs: u64,
    /// Sustained requests per second per backend, in thousandths
    /// (the bucket holds twice as many); 0 disables the limiter.
    pub rate_limit_millirps: u64,
}

/// Resilience settings for one backend, overrides already applied.
#[derive(Debug, Clone, Copy)]
pub struct ResolvedResilience {
    pub retry_attempts: u32,
    pub base_delay_ms: u64,
    pub max_delay_ms: u64,
    pub failure_threshold: u32,
    pub recovery_secs: u64,
    pub rate_limit_millirps: u64,
}

/// One workflow definition.
#[derive(Debug, Clone)]
pub struct WorkflowConfig {
    pub name: String,
    /// "fan-out" | "pipeline" | "router" | "eval-loop" | "fusion"
    pub pattern: String,
    /// Fan-out, router and fusion panel backends.
    pub backends: Vec<String>,
    /// Fan-out aggregation; only "all" is implemented.
    pub aggregation: Option<String>,
    /// Pipeline steps.
    pub steps: Vec<PipelineStep>,
    /// Eval-loop generator and evaluator.
    pub generator: Option<String>,
    pub evaluator: Option<String>,
    pub max_iterations: Option<u32>,
    /// Fusion judge, and the synthesizer (the judge when absent).
    pub judge: Option<String>,
    pub synthesizer: Option<String>,
}

/// One pipeline step.
#[derive(Debug, Clone)]
pub struct PipelineStep {
    pub backend: String,
    /// Role of the message sent to the step (`user` when absent).
    pub role: Option<String>,
    /// Template for the message; `{{step.output}}` is replaced by the previous output.
    pub prompt_template: Option<String>,
}

/// Default `[server].name`.
pub fn default_name() -> (s: String)
    ensures
        s@ == "weir"@,
{
    String::from_str("weir")
}

/// Default per-backend timeout in seconds.
pub fn default_timeout() -> (v: u64)
    ensures
        v == 60,
{
    60
}

/// Default total attempts.
pub fn default_retry_attempts() -> (v: u32)
    ensures
        v == 3,
{
    3
}

/// Default base backoff delay in milliseconds.
pub fn default_base_delay_ms() -> (v: u64)
    ensures
        v == 100,
{
    100
}

/// Default backoff cap in milliseconds.
pub fn default_max_delay_ms() -> (v: u64)
    ensures
        v == 5000,
{
    5000
}

/// Default consecutive failures before the circuit opens.
pub fn default_failure_threshold() -> (v: u32)
    ensures
        v == 5,
{
    5
}

/// Default open-circuit recovery window in seconds.
pub fn default_recovery_secs() -> (v: u64)
    ensures
        v == 30,
{
    30
}

/// Default rate limit: 100 requests per second.
pub fn default_rate_limit_millirps() -> (v: u64)
    ensures
        v == 100_000,
{
    100_000
}

impl Default for ServerConfig {
    fn default() -> (s: ServerConfig)
        ensures
            s.name@ == "weir"@,
    {
        ServerConfig { name: default_name() }
    }
}

impl Default for ResilienceConfig {
    fn default() -> (r: ResilienceConfig)
        ensures
            r.retry_attempts == 3,
            r.base_delay_ms == 100,
            r.max_delay_ms == 5000,
            r.failure_threshold == 5,
            r.recovery_secs == 30,
            r.rate_limit_millirps == 100_000,
    {
        ResilienceConfig {
            retry_attempts: default_retry_attempts(),
            base_delay_ms: default_base_delay_ms(),
            max_delay_ms: default_max_delay_ms(),
            failure_threshold: default_failure_threshold(),
            recovery_secs: default_recovery_secs(),
            rate_limit_millirps: default_rate_limit_millirps(),
        }
    }
}

/// The names of the backends, in order.
pub open spec fn backend_names(backends: Seq<BackendConfig>) -> Seq<Seq<char>> {
    backends.map_values(|b: BackendConfig| b.name@)
}

/// The names of the workflows, in order.
pub open spec fn workflow_names(workflows: Seq<WorkflowConfig>) -> Seq<Seq<char>> {
    workflows.map_values(|w: WorkflowConfig| w.name@)
}

/// Index of the first backend named `name`.
pub fn find_backend_index(backends: &Vec<BackendConfig>, name: &str) -> (r: Option<usize>)
    ensures
        r matches Some(i) ==> i < backends@.len() && find_first(backend_names(backends@), name@) == Some(
            i as int,
        ),
        r is None ==> find_first(backend_names(backends@), name@) is None,
{
    let ghost names = backend_names(backends@);
    let mut i: usize = 0;
    while i < backends.len()
        invariant
            i <= backends.len(),
            names == backend_names(backends@),
            forall|k: int| 0 <= k < i ==> names[k] != name@,
        decreases backends.len() - i,
    {
        if str_eq(backends[i].name.as_str(), name) {
            proof {
                lemma_find_first_at(names, name@, i as int);
            }
            return Some(i);
        }
        i = i + 1;
    }
    proof {
        lemma_find_first_none(names, name@);
    }
    None
}

/// Index of the first workflow named `name`.
pub fn find_workflow_index(workflows: &Vec<WorkflowConfig>, name: &str) -> (r: Option<usize>)
    ensures
        r matches Some(i) ==> i < workflows@.len() && find_first(workflow_names(workflows@), name@) == Some(
            i as int,
        ),
        r is None ==> find_first(workflow_names(workflows@), name@) is None,
{
    let ghost names = workflow_names(workflows@);
    let mut i: usize = 0;
    while i < workflows.len()
        invariant
            i <= workflows.len(),
            names == workflow_names(workflows@),
            forall|k: int| 0 <= k < i ==> names[k] != name@,
        decreases workflows.len() - i,
    {
        if str_eq(workflows[i].name.as_str(), name) {
            proof {
                lemma_find_first_at(names, name@, i as int);
            }
            return Some(i);
        }
        i = i + 1;
    }
    proof {
        lemma_find_first_none(names, name@);
    }
    None
}

/// `opt`, or `default` when absent.
pub open spec fn or_default<T>(opt: Option<T>, default: T) -> T {
    match opt {
        Some(v) => v,
        None => default,
    }
}

/// The resilience settings of `name`: each per-backend override of the first
/// backend so named, else the global value. Delays are global only.
pub open spec fn resolved_spec(cfg: Config, name: Seq<char>) -> ResolvedResilience {
    let g = cfg.resilience;
    match find_first(backend_names(cfg.backends@), name) {
        Some(i) => {
            let b = cfg.backends@[i];
            ResolvedResilience {
                retry_attempts: or_default(b.retry_attempts, g.retry_attempts),
                base_delay_ms: g.base_delay_ms,
                max_delay_ms: g.max_delay_ms,
                failure_threshold: or_default(b.failure_threshold, g.failure_threshold),
                recovery_secs: or_default(b.recovery_secs, g.recovery_secs),
                rate_limit_millirps: or_default(b.rate_limit_millirps, g.rate_limit_millirps),
            }
        },
        None => ResolvedResilience {
            retry_attempts: g.retry_attempts,
            base_delay_ms: g.base_delay_ms,
            max_delay_ms: g.max_delay_ms,
            failure_threshold: g.failure_threshold,
            recovery_secs: g.recovery_secs,
            rate_limit_millirps: g.rate_limit_millirps,
        },
    }
}

impl Config {
    /// Effective resilience settings for `backend_name`: the global
    /// `[resilience]` block merged with that backend's overrides. An unknown
    /// name yields the global values.
    pub fn resilience_for(&self, backend_name: &str) -> (r: ResolvedResilience)
        ensures
            r == resolved_spec(*self, backend_name@),
    {
        let g = self.resilience;
        match find_backend_index(&self.backends, backend_name) {
            Some(i) => {
                let b = &self.backends[i];
                ResolvedResilience {
                    retry_attempts: match b.retry_attempts {
                        Some(v) => v,
                        None => g.retry_attempts,
                    },
                    base_delay_ms: g.base_delay_ms,
                    max_delay_ms: g.max_delay_ms,
                    failure_threshold: match b.failure_threshold {
                        Some(v) => v,
                        None => g.failure_threshold,
                    },
                    recovery_secs: match b.recovery_secs {
                        Some(v) => v,
                        None => g.recovery_secs,
                    },
                    rate_limit_millirps: match b.rate_limit_millirps {
                        Some(v) => v,
                        None => g.rate_limit_millirps,
                    },
                }
            },
            None => ResolvedResilience {
                retry_attempts: g.retry_attempts,
                base_delay_ms: g.base_delay_ms,
                max_delay_ms: g.max_delay_ms,
                failure_threshold: g.failure_threshold,
                recovery_secs: g.recovery_secs,
                rate_limit_millirps: g.rate_limit_millirps,
            },
        }
    }

    /// The first workflow named `name`, or `WorkflowNotFound`.
    pub fn find_workflow(&self, name: &str) -> (r: Result<&WorkflowConfig>)
        ensures
            match find_first(workflow_names(self.workflows@), name@) {
                Some(i) => r matches Ok(w) && *w == self.workflows@[i],
                None => r matches Err(WeirError::WorkflowNotFound(n)) && n@ == name@,
            },
    {
        match find_workflow_index(&self.workflows, name) {
            Some(i) => Ok(&self.workflows[i]),
            None => Err(WeirError::WorkflowNotFound(String::from_str(name))),
        }
    }
}

} // verus!
