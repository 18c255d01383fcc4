//! Turns the per-file diffs of a change into a commit message: per-file summaries,
//! a title, a body, an optional classification prefix and an optional translation.
//! The texts themselves come from a completion service that the caller runs; this
//! crate renders the prompts, decides what to ask next and assembles the answers.
//! Prompt templates may hold variables, `if` blocks and comments; see `template`.

pub mod laws;
pub mod pipeline;
pub mod prompt;
pub mod settings;
pub mod summarize;
pub mod template;
pub mod text;
