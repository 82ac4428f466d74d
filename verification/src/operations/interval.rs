//! The fixed-interval poll strategy: once per period, one fetch and — if it
//! succeeded — one send.

use vstd::prelude::*;

use crate::operations::Operation;
use crate::readers::FetchError;
use crate::readers::api::ApiReader;
use crate::schemas::Record;
use crate::schemas::kafka::KafkaMessage;
use crate::writers::kafka::KafkaWriter;

verus! {

/// A poll pipeline: every `interval_secs` seconds the driver fetches once
/// from `reader` and delivers the planned message, if any, to `writer`.
/// The timer follows the delay-on-miss policy of [`crate::operations::timing`].
pub struct IntervalOperation {
    pub id: String,
    pub reader: ApiReader,
    pub writer: KafkaWriter,
    pub interval_secs: u64,
}

impl IntervalOperation {
    pub fn new(id: &str, reader: ApiReader, writer: KafkaWriter, interval_secs: u64) -> (op: Self)
        ensures
            op.id@ == id@,
            op.reader == reader,
            op.writer == writer,
            op.interval_secs == interval_secs,
    {
        IntervalOperation { id: id.to_owned(), reader, writer, interval_secs }
    }

    /// What one cycle delivers, given the outcome of that cycle's fetch: a
    /// successful fetch is keyed by the reader's record shape and sent; a
    /// failed fetch ends the cycle with no send and no retry. The plan
    /// depends on this cycle's fetch alone, so no cycle's failure can
    /// affect a later cycle.
    pub fn cycle_plan(&self, fetched: &Result<Record, FetchError>) -> (plan: Option<
        KafkaMessage<Record>,
    >)
        ensures
            fetched is Err ==> plan is None,
            fetched matches Ok(r) ==> plan matches Some(m) && m.key@ == self.reader.record_type@
                && m.value == r,
    {
        match fetched {
            Ok(r) => Some(KafkaMessage::new(self.reader.record_type.as_str(), r.clone())),
            Err(_) => None,
        }
    }

    /// The overrun test a cycle applies to its own wall-clock duration:
    /// exceeding the period is reported (the driver logs a warning) but
    /// never halts the pipeline.
    pub fn cycle_overran(&self, elapsed_secs: u64) -> (r: bool)
        ensures
            r == (elapsed_secs > self.interval_secs),
    {
        elapsed_secs > self.interval_secs
    }

    /// The poll loop over a whole run, one fetch outcome per cycle: each
    /// cycle's send is planned from its own fetch alone. A failure on one
    /// cycle yields no send for that cycle and leaves every other cycle's
    /// plan unchanged.
    pub fn run_cycles(&self, fetches: &Vec<Result<Record, FetchError>>) -> (sends: Vec<
        Option<KafkaMessage<Record>>,
    >)
        ensures
            sends@.len() == fetches@.len(),
            forall|k: int|
                0 <= k < sends@.len() ==> (fetches@[k] is Err ==> sends@[k] is None),
            forall|k: int|
                #![trigger sends@[k]]
                0 <= k < sends@.len() ==> (fetches@[k] matches Ok(r) ==> sends@[k] matches Some(m)
                    && m.key@ == self.reader.record_type@ && m.value == r),
    {
        let mut sends: Vec<Option<KafkaMessage<Record>>> = Vec::new();
        let mut k: usize = 0;
        while k < fetches.len()
            invariant
                k <= fetches@.len(),
                sends@.len() == k,
                forall|j: int|
                    0 <= j < k ==> (fetches@[j] is Err ==> sends@[j] is None),
                forall|j: int|
                    #![trigger sends@[j]]
                    0 <= j < k ==> (fetches@[j] matches Ok(r) ==> sends@[j] matches Some(m)
                        && m.key@ == self.reader.record_type@ && m.value == r),
            decreases fetches@.len() - k,
        {
            let plan = self.cycle_plan(&fetches[k]);
            sends.push(plan);
            k = k + 1;
        }
        sends
    }
}

impl Operation for IntervalOperation {
    open spec fn id_view(&self) -> Seq<char> {
        self.id@
    }

    fn id(&self) -> (r: &str) {
        self.id.as_str()
    }
}

} // verus!
