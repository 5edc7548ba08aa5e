//! The crate-wide error type.

use vstd::prelude::*;
use vstd::string::*;

verus! {

/// Everything that can go wrong in weir. Each variant carries its detail text.
#[derive(Debug, Clone, PartialEq, Eq)]
pub enum WeirError {
    Config(String),
    BackendNotFound(String),
    Backend(String),
    WorkflowNotFound(String),
    Validation(String),
    CircuitOpen(String),
    RateLimited(String),
    Io(String),
    Json(String),
}

/// The `Result` of weir operations.
pub type Result<T> = core::result::Result<T, WeirError>;

impl WeirError {
    /// The text this error is shown as.
    pub open spec fn message_spec(self) -> Seq<char> {
        match self {
            WeirError::Config(s) => "config error: "@ + s@,
            WeirError::BackendNotFound(s) => "backend '"@ + s@ + "' not found"@,
            WeirError::Backend(s) => "backend error: "@ + s@,
            WeirError::WorkflowNotFound(s) => "workflow '"@ + s@ + "' not found"@,
            WeirError::Validation(s) => "validation failed: "@ + s@,
            WeirError::CircuitOpen(s) => "circuit open: "@ + s@,
            WeirError::RateLimited(s) => "rate limited: "@ + s@,
            WeirError::Io(s) => "io error: "@ + s@,
            WeirError::Json(s) => "json error: "@ + s@,
        }
    }

    /// The text this error is shown as.
    pub fn message(&self) -> (r: String)
        ensures
            r@ == self.message_spec(),
    {
        match self {
            WeirError::Config(s) => {
                let mut r = String::from_str("config error: ");
                r.append(s.as_str());
                r
            },
            WeirError::BackendNotFound(s) => {
                let mut r = String::from_str("backend '");
                r.append(s.as_str());
                r.append("' not found");
                r
            },
            WeirError::Backend(s) => {
                let mut r = String::from_str("backend error: ");
                r.append(s.as_str());
                r
            },
            WeirError::WorkflowNotFound(s) => {
                let mut r = String::from_str("workflow '");
                r.append(s.as_str());
                r.append("' not found");
                r
            },
            WeirError::Validation(s) => {
                let mut r = String::from_str("validation failed: ");
                r.append(s.as_str());
                r
            },
            WeirError::CircuitOpen(s) => {
                let mut r = String::from_str("circuit open: ");
                r.append(s.as_str());
                r
            },
            WeirError::RateLimited(s) => {
                let mut r = String::from_str("rate limited: ");
                r.append(s.as_str());
                r
            },
            WeirError::Io(s) => {
                let mut r = String::from_str("io error: ");
                r.append(s.as_str());
                r
            },
            WeirError::Json(s) => {
                let mut r = String::from_str("json error: ");
                r.append(s.as_str());
                r
            },
        }
    }

    /// Whether the error comes from the user's input or configuration
    /// (as opposed to the system or a backend).
    pub open spec fn is_user_error(self) -> bool {
        self is Config || self is BackendNotFound || self is WorkflowNotFound || self is Validation
    }

    /// Whether a retry may help: only genuine transient backend failures.
    pub open spec fn is_retryable(self) -> bool {
        self is Backend
    }
}

/// The process exit code for an error: 1 for user or configuration errors,
/// 2 for system or backend errors.
pub fn exit_code_for(e: &WeirError) -> (code: i32)
    ensures
        code == (if e.is_user_error() { 1i32 } else { 2i32 }),
{
    match e {
        WeirError::Config(_)
        | WeirError::BackendNotFound(_)
        | WeirError::WorkflowNotFound(_)
        | WeirError::Validation(_) => 1,
        _ => 2,
    }
}

/// Whether a failed attempt may be retried.
pub fn is_retryable(e: &WeirError) -> (b: bool)
    ensures
        b == e.is_retryable(),
{
    match e {
        WeirError::Backend(_) => true,
        _ => false,
    }
}

} // verus!
