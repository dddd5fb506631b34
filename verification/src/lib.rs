//! The decisions of a JavaScript task: how it moves from state to state, whom
//! it notifies of its outcome, and how a thrown JavaScript value becomes an
//! error with a readable text.
//!
//! Nothing here performs input or output. The functions of this crate say
//! what to do next; the embedding program reads files, evaluates scripts and
//! sends messages, and hands back what came of it.

pub mod error;
pub mod error_laws;
pub mod exception;
pub mod extraction;
pub mod extraction_laws;
pub mod main_thread;
pub mod task;
pub mod task_laws;
pub mod task_run;
pub mod text;
