//! Status collection for a shell prompt: which external commands to run,
//! how their output is read, and how the results are classified and merged
//! into one prompt line.

pub mod query;
pub mod command;
pub mod git;
pub mod prompt;
pub mod cloud;
