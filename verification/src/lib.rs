//! A code execution and recovery engine. It takes a code fragment with its
//! language tag, plans the steps that set up the runtime environment, run
//! the fragment and clean up after it, classifies a failure by its
//! diagnostics and allows one remediation.
//!
//! The engine decides and never touches the host: it asks for actions and
//! takes events in answer. What holds of every execution is proved in
//! `laws`.

pub mod directive;
pub mod engine;
pub mod failure;
pub mod fragment;
pub mod language;
pub mod laws;
pub mod outcome;
pub mod prompt;
pub mod protocol;
pub mod provision;
pub mod render;
pub mod text;
pub mod toolchain;
