//! The fixed-interval fan-out strategy: once per period, one fetch whose
//! record — if the fetch succeeded — is broadcast to every configured sink.

use vstd::prelude::*;

use crate::operations::Operation;
use crate::readers::FetchError;
use crate::readers::api::ApiReader;
use crate::schemas::Record;
use crate::schemas::kafka::KafkaMessage;
use crate::writers::kafka::KafkaWriter;

verus! {

/// A fan-out pipeline: every `interval_secs` seconds the driver fetches
/// once from `reader` and delivers one independently converted copy of the
/// record to each of the `writers`, concurrently and unordered, waiting for
/// all deliveries before the cycle ends. The timer follows the
/// delay-on-miss policy of [`crate::operations::timing`].
pub struct IntervalFanoutOperation {
    pub id: String,
    pub reader: ApiReader,
    pub writers: Vec<KafkaWriter>,
    pub interval_secs: u64,
}

impl IntervalFanoutOperation {
    pub fn new(id: &str, reader: ApiReader, interval_secs: u64) -> (op: Self)
        ensures
            op.id@ == id@,
            op.reader == reader,
            op.writers@.len() == 0,
            op.interval_secs == interval_secs,
    {
        IntervalFanoutOperation { id: id.to_owned(), reader, writers: Vec::new(), interval_secs }
    }

    pub fn add_writer(&mut self, writer: KafkaWriter)
        ensures
            final(self).writers@ == old(self).writers@.push(writer),
            final(self).id == old(self).id,
            final(self).reader == old(self).reader,
            final(self).interval_secs == old(self).interval_secs,
    {
        self.writers.push(writer);
    }

    pub fn with_writer(self, writer: KafkaWriter) -> (op: Self)
        ensures
            op.writers@ == self.writers@.push(writer),
            op.id == self.id,
            op.reader == self.reader,
            op.interval_secs == self.interval_secs,
    {
        let mut op = self;
        op.add_writer(writer);
        op
    }

    /// Whether the pipeline can run at all: a fan-out with zero sinks is a
    /// construction error — the driver logs it and the pipeline idles
    /// rather than crashing.
    pub fn can_start(&self) -> (r: bool)
        ensures
            r == (self.writers@.len() > 0),
    {
        self.writers.len() > 0
    }

    /// The overrun test a cycle applies to its own wall-clock duration:
    /// exceeding the period is reported (the driver logs a warning) but
    /// never halts the pipeline.
    pub fn cycle_overran(&self, elapsed_secs: u64) -> (r: bool)
        ensures
            r == (elapsed_secs > self.interval_secs),
    {
        elapsed_secs > self.interval_secs
    }

    /// What one cycle delivers, given the outcome of that cycle's fetch: on
    /// success, exactly one independently converted copy of the record per
    /// configured sink — entry `i` is for `writers[i]` — each keyed by the
    /// reader's record shape; on failure, nothing. The sends are all
    /// planned before any delivery is attempted, so no sink's failure can
    /// suppress or delay another sink's delivery in the same cycle, and no
    /// cycle's failure affects a later cycle.
    pub fn cycle_plan(&self, fetched: &Result<Record, FetchError>) -> (sends: Vec<
        KafkaMessage<Record>,
    >)
        ensures
            fetched is Err ==> sends@.len() == 0,
            fetched matches Ok(r) ==> sends@.len() == self.writers@.len(),
            fetched matches Ok(r) ==> forall|i: int|
                0 <= i < sends@.len() ==> sends@[i].key@ == self.reader.record_type@
                    && sends@[i].value == r,
    {
        let mut sends: Vec<KafkaMessage<Record>> = Vec::new();
        match fetched {
            Ok(r) => {
                let mut i: usize = 0;
                while i < self.writers.len()
                    invariant
                        i <= self.writers@.len(),
                        sends@.len() == i,
                        forall|j: int|
                            0 <= j < i ==> sends@[j].key@ == self.reader.record_type@
                                && sends@[j].value == r,
                    decreases self.writers@.len() - i,
                {
                    sends.push(KafkaMessage::new(self.reader.record_type.as_str(), r.clone()));
                    i = i + 1;
                }
            },
            Err(_) => {},
        }
        sends
    }

    /// The fan-out loop over a whole run, one fetch outcome per cycle: each
    /// cycle's broadcast is planned from its own fetch alone. A failed
    /// fetch on one cycle yields zero sends for that cycle and leaves every
    /// other cycle's broadcast unchanged.
    pub fn run_cycles(&self, fetches: &Vec<Result<Record, FetchError>>) -> (sends: Vec<
        Vec<KafkaMessage<Record>>,
    >)
        ensures
            sends@.len() == fetches@.len(),
            forall|k: int|
                0 <= k < sends@.len() ==> (fetches@[k] is Err ==> sends@[k]@.len() == 0),
            forall|k: int|
                #![trigger sends@[k]]
                0 <= k < sends@.len() ==> (fetches@[k] matches Ok(r) ==> sends@[k]@.len()
                    == self.writers@.len() && forall|i: int|
                    0 <= i < sends@[k]@.len() ==> sends@[k]@[i].key@ == self.reader.record_type@
                        && sends@[k]@[i].value == r),
    {
        let mut sends: Vec<Vec<KafkaMessage<Record>>> = Vec::new();
        let mut k: usize = 0;
        while k < fetches.len()
            invariant
                k <= fetches@.len(),
                sends@.len() == k,
                forall|j: int|
                    0 <= j < k ==> (fetches@[j] is Err ==> sends@[j]@.len() == 0),
                forall|j: int|
                    #![trigger sends@[j]]
                    0 <= j < k ==> (fetches@[j] matches Ok(r) ==> sends@[j]@.len()
                        == self.writers@.len() && forall|i: int|
                        0 <= i < sends@[j]@.len() ==> sends@[j]@[i].key@
                            == self.reader.record_type@ && sends@[j]@[i].value == r),
            decreases fetches@.len() - k,
        {
            let plan = self.cycle_plan(&fetches[k]);
            sends.push(plan);
            k = k + 1;
        }
        sends
    }
}

impl Operation for IntervalFanoutOperation {
    open spec fn id_view(&self) -> Seq<char> {
        self.id@
    }

    fn id(&self) -> (r: &str) {
        self.id.as_str()
    }
}

} // verus!
