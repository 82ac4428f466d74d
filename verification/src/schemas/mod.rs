//! The data model that records take while they move through a pipeline.

use vstd::prelude::*;

pub mod bytes;
pub mod kafka;

verus! {

/// One unit of payload data flowing through a pipeline. Wire-level encoding
/// belongs to the connectors; inside the pipeline a record carries its
/// payload as one opaque text body (for both transports this is JSON text).
pub struct Record {
    pub body: String,
}

impl Record {
    pub fn new(body: String) -> (r: Record)
        ensures
            r.body == body,
    {
        Record { body }
    }
}

impl View for Record {
    type V = Seq<char>;

    open spec fn view(&self) -> Seq<char> {
        self.body@
    }
}

impl Clone for Record {
    fn clone(&self) -> (r: Self)
        ensures
            r == *self,
    {
        Record { body: self.body.clone() }
    }
}

/// Types that carry a stable diagnostic identifier. The identifier doubles
/// as the default message key when a bare record is keyed for a topic sink.
pub trait Named: Sized {
    /// The identifier as a mathematical value.
    spec fn id_spec() -> Seq<char>;

    fn get_id(&self) -> (r: &'static str)
        ensures
            r@ == Self::id_spec(),
    ;

    /// Identifiers are fixed per shape: asking to change one is a no-op.
    fn set_id(&mut self, _id: &'static str)
        ensures
            *final(self) == *old(self),
    ;
}

} // verus!
