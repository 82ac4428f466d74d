//! A declarative data-movement framework: pipelines read records from a
//! source (an HTTP endpoint or a message-topic consumer) and forward them to
//! one or more message-topic sinks, with many independent pipelines running
//! concurrently inside one process.
//!
//! This crate holds the pipeline compiler and the decision logic of the three
//! execution strategies (continuous stream relay, fixed-interval poll,
//! fixed-interval fan-out). The transport connectors themselves (HTTP client,
//! topic consumer and producer) live outside: they are driven through the
//! plain-data bindings and the per-cycle planning functions defined here.

use vstd::prelude::*;

pub mod compile;
pub mod config;
pub mod operations;
pub mod readers;
pub mod schemas;
pub mod writers;

use operations::PipelineInstance;

verus! {

/// The runtime supervisor: owns the compiled collection of pipeline
/// instances. A driver launches one concurrent task per instance and waits
/// for all of them; the supervisor itself performs no restart, no health
/// check and no cross-pipeline signaling.
pub struct Courier {
    pub operations: Vec<PipelineInstance>,
}

impl Courier {
    pub fn new(operations: Vec<PipelineInstance>) -> (c: Courier)
        ensures
            c.operations == operations,
    {
        Courier { operations }
    }

    /// How many pipeline instances this supervisor owns; the driver spawns
    /// exactly one task per instance.
    pub fn len(&self) -> (n: usize)
        ensures
            n == self.operations@.len(),
    {
        self.operations.len()
    }

    /// Hands the instances over to the driver, one unit of concurrent work
    /// each, in the order they were compiled.
    pub fn into_operations(self) -> (ops: Vec<PipelineInstance>)
        ensures
            ops == self.operations,
    {
        self.operations
    }
}

/// A sample wire shape for records fetched from an HTTP endpoint.
pub struct ApiItalo {
    pub message: String,
}

impl schemas::Named for ApiItalo {
    open spec fn id_spec() -> Seq<char> {
        "ApiItalo"@
    }

    fn get_id(&self) -> (r: &'static str) {
        "ApiItalo"
    }

    fn set_id(&mut self, _id: &'static str) {
    }
}

} // verus!
