//! Verified core of an issue-triage pipeline.
//!
//! The library renders unlabeled issues together with operator-authored
//! label rules into a model prompt, parses the model's free-text answer
//! into a label set, and drives a confirm-or-skip decision before any
//! label is applied.  All I/O (the issue tracker, the model, the
//! terminal) stays outside; the library is handed plain values and
//! returns plain values.

pub mod config;
pub mod confirm;
pub mod issue;
pub mod parser;
pub mod prompt;
pub mod triage;
