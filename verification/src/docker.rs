//! The shape of an answer about the container runtime.

use vstd::prelude::*;

verus! {

/// The outcome of asking the container runtime for its status: whether the
/// query succeeded, with its output if it did and the error if it did not.
#[derive(Debug, PartialEq, Eq)]
pub struct DockerInfo {
    pub success: bool,
    pub output: Option<String>,
    pub error: Option<String>,
}

} // verus!
