//! The continuous stream-relay strategy: every item of the source's lazy
//! sequence is converted and delivered to the sink, in arrival order, one
//! at a time.

use vstd::prelude::*;

use crate::operations::Operation;
use crate::readers::kafka::KafkaReader;
use crate::schemas::Record;
use crate::schemas::kafka::KafkaMessage;
use crate::writers::SendError;
use crate::writers::kafka::KafkaWriter;

verus! {

/// How many of the send outcomes seen so far were failures.
pub open spec fn failures_in(outcomes: Seq<Result<(), SendError>>) -> nat
    decreases outcomes.len(),
{
    if outcomes.len() == 0 {
        0
    } else {
        failures_in(outcomes.drop_last()) + if outcomes.last() is Err {
            1nat
        } else {
            0nat
        }
    }
}

/// A relay pipeline: the driver opens `reader`'s continuous sequence and,
/// for each item it yields, delivers the converted message to `writer`.
/// When the sequence ends the pipeline terminates (logged as a warning);
/// sibling pipelines are unaffected.
pub struct StreamOperation {
    pub id: String,
    pub reader: KafkaReader,
    pub writer: KafkaWriter,
}

impl StreamOperation {
    pub fn new(id: &str, reader: KafkaReader, writer: KafkaWriter) -> (op: Self)
        ensures
            op.id@ == id@,
            op.reader == reader,
            op.writer == writer,
    {
        StreamOperation { id: id.to_owned(), reader, writer }
    }

    /// The per-item conversion from the source's item shape to the sink's:
    /// for a keyed message relayed between topics it is the identity — the
    /// content is unchanged and the key is the one the source assigned.
    pub fn deliver(&self, item: KafkaMessage<Record>) -> (out: KafkaMessage<Record>)
        ensures
            out == item,
    {
        item
    }

    /// The relay loop over a finite prefix of the source sequence, with the
    /// outcome of each delivery: every one of the `N` items yields exactly
    /// one send, in arrival order and with the item's own content; a failed
    /// delivery is counted (the driver logs it) and the relay proceeds to
    /// the next item regardless. When the items end, the relay stops: the
    /// sends are exactly the `N` listed, and no more.
    pub fn run_stream(
        &self,
        items: Vec<KafkaMessage<Record>>,
        outcomes: &Vec<Result<(), SendError>>,
    ) -> (r: (Vec<KafkaMessage<Record>>, usize))
        requires
            outcomes@.len() == items@.len(),
        ensures
            r.0@.len() == items@.len(),
            forall|i: int| 0 <= i < items@.len() ==> r.0@[i] == items@[i],
            r.1 == failures_in(outcomes@),
    {
        let mut sends: Vec<KafkaMessage<Record>> = Vec::new();
        let mut failed: usize = 0;
        let mut i: usize = 0;
        while i < items.len()
            invariant
                i <= items@.len(),
                outcomes@.len() == items@.len(),
                sends@.len() == i,
                forall|j: int| 0 <= j < i ==> sends@[j] == items@[j],
                failed == failures_in(outcomes@.subrange(0, i as int)),
                failed <= i,
            decreases items@.len() - i,
        {
            let out = self.deliver(items[i].clone());
            sends.push(out);
            if outcomes[i].is_err() {
                failed = failed + 1;
            }
            proof {
                assert(outcomes@.subrange(0, i + 1).drop_last() =~= outcomes@.subrange(
                    0,
                    i as int,
                ));
                assert(outcomes@.subrange(0, i + 1).last() == outcomes@[i as int]);
            }
            i = i + 1;
        }
        proof {
            assert(outcomes@.subrange(0, items@.len() as int) =~= outcomes@);
        }
        (sends, failed)
    }
}

impl Operation for StreamOperation {
    open spec fn id_view(&self) -> Seq<char> {
        self.id@
    }

    fn id(&self) -> (r: &str) {
        self.id.as_str()
    }
}

} // verus!
