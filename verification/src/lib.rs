//! Supervision of a bundled background server process ("sidecar").
//!
//! The crate holds the decisions of the supervisor as plain, sequential
//! functions over plain values: whether a start request may spawn, what a
//! shutdown has to terminate, which log line an event of the child produces.
//! Spawning, killing, waiting and printing are left to the embedding
//! application, which performs the returned actions.

pub mod command;
pub mod docker;
pub mod lifecycle;
pub mod paths;
pub mod platform;
pub mod relay;
pub mod supervisor;
pub mod text;
