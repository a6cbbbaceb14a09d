//! A resumable step runner for provisioning a package-manager tap: a run
//! passes through an ordered list of steps, each checked before and after
//! its effect, and its state is recorded so that a later invocation can
//! take it up where it stopped.

pub mod error;
pub mod inputs;
pub mod laws;
pub mod platform;
pub mod runner;
pub mod state;
pub mod steps;
pub mod text;
