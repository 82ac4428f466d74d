//! The three pipeline strategies, their per-cycle decision logic, and the
//! polymorphic handle the supervisor stores them behind.
//!
//! A strategy's outside work (the timer wait, the fetch, the send) is
//! performed by a driver; the functions here decide, from the outcome of
//! each such step, what is delivered where. Everything a driver must do in
//! between is a verified function of plain values.

use vstd::prelude::*;

pub mod timing;

mod interval;
mod interval_fanout;
mod stream;

pub use interval::IntervalOperation;
pub use interval_fanout::IntervalFanoutOperation;
pub use stream::StreamOperation;

verus! {

/// The common capability of every compiled pipeline: it can name itself.
/// The name is used in diagnostics only, never for identity.
pub trait Operation {
    /// The diagnostic name as a mathematical value.
    spec fn id_view(&self) -> Seq<char>;

    fn id(&self) -> (r: &str)
        ensures
            r@ == self.id_view(),
    ;
}

/// A compiled, runnable pipeline bound to one concrete source and one or
/// many concrete sinks. Each instance exclusively owns its bindings; the
/// supervisor stores a homogeneous collection of these handles.
pub enum PipelineInstance {
    Interval(IntervalOperation),
    Stream(StreamOperation),
    IntervalFanout(IntervalFanoutOperation),
}

impl Operation for PipelineInstance {
    open spec fn id_view(&self) -> Seq<char> {
        match self {
            PipelineInstance::Interval(op) => op.id@,
            PipelineInstance::Stream(op) => op.id@,
            PipelineInstance::IntervalFanout(op) => op.id@,
        }
    }

    fn id(&self) -> (r: &str) {
        match self {
            PipelineInstance::Interval(op) => op.id(),
            PipelineInstance::Stream(op) => op.id(),
            PipelineInstance::IntervalFanout(op) => op.id(),
        }
    }
}

} // verus!
