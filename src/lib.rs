//! Detection of the managed compute environment a process runs in, and of the
//! monitored-resource descriptor that identifies it to a telemetry exporter.
//!
//! - `chain` states the decision chain over a model of the platform;
//! - `detector` runs it: a [`detector::Detection`] names the queries it needs
//!   (`probe::Query`), takes their answers round by round, asks exactly the
//!   queries of `chain::trace` (each once, in the chain's order) and ends with
//!   the result that `chain::detection` gives for every platform that answers
//!   so;
//! - `metadata` builds metadata-service URLs and reads their responses;
//! - `laws` proves properties of the chain.
//!
//! Performing the queries (HTTP, environment, files) is the caller's part.
use vstd::prelude::*;

pub mod chain;
pub mod detector;
pub mod laws;
pub mod metadata;
pub mod probe;
pub mod resource;
pub mod text;
mod transport;

verus! {

/// The two ways in which detection can fail.
#[derive(Debug, Clone, Copy, PartialEq, Eq, Structural)]
pub enum DetectError {
    /// An environment was recognised, but no project id could be resolved.
    NoProjectId,
    /// No metadata service answered, or no environment's signals matched.
    DetectionFailed,
}

} // verus!
