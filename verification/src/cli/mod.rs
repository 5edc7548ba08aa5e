//! The logic behind the `backend` and `workflow` subcommands: summaries for
//! listing, and comment-preserving edits of `weir.toml`.

pub mod backend;
pub mod toml_doc;
pub mod workflow;
