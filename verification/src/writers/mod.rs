//! Sink bindings and the failure taxonomy of a one-shot send.

use vstd::prelude::*;

pub mod kafka;

verus! {

/// Why the delivery of one record failed. Send failures are categorized,
/// returned to the caller, and never retried by the sink itself.
#[derive(Debug)]
pub enum SendError {
    /// The record could not be serialized for the wire.
    Serialization,
    /// The broker did not accept the delivery.
    Delivery,
}

} // verus!
