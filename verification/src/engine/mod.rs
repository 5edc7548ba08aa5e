//! The workflow engines, each as a state machine: the caller performs the
//! backend call an action asks for and hands back its outcome.

pub mod eval_loop;
pub mod fan_out;
pub mod fusion;
pub mod pipeline;
pub mod workflow;
