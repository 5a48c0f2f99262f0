//! Decision logic of a bootstrap installer for a StarkNet development
//! environment: which external commands to run, in which order, and what
//! their results mean. The library performs no input or output itself; a
//! driver carries out each requested action and reports back what happened.

pub mod command;
pub mod error;
pub mod laws;
pub mod pipeline;
pub mod profile;
pub mod prompt;
pub mod text;
