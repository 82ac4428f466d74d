//! The pipeline compiler: an ahead-of-time pass that turns the declarative
//! description into ready-to-run pipeline instances — or fails before
//! anything runs.
//!
//! For each description it resolves the source and sink(s) to concrete
//! bindings of the declared record shapes, verifies that every sink's
//! record shape can be fed from the source's (the shapes must agree),
//! verifies the strategy-specific requirements (a positive period where one
//! is required, a non-empty sink list for fan-out, a source offering the
//! capability the strategy needs), and builds the instance. Any violation
//! is fatal to the whole batch: the first offending pipeline is reported by
//! name and no instance is produced for any description.

use vstd::prelude::*;

use crate::Courier;
use crate::config::{Config, OperationConfig, ReaderConfig, WriterConfig};
use crate::operations::{
    IntervalFanoutOperation, IntervalOperation, PipelineInstance, StreamOperation,
};
use crate::readers::api::ApiReader;
use crate::readers::kafka::KafkaReader;
use crate::writers::kafka::KafkaWriter;

verus! {

/// A fatal build-time failure, naming the offending pipeline.
#[derive(Debug)]
pub enum CompileError {
    /// An interval strategy was given a source with no one-shot fetch
    /// capability.
    SourceNotFetchCapable { pipeline: String },
    /// The stream strategy was given a source with no continuous-sequence
    /// capability.
    SourceNotStreamCapable { pipeline: String },
    /// A sink's record shape cannot be fed from the source's.
    RecordTypeMismatch { pipeline: String, source_type: String, sink_type: String },
    /// An interval strategy was given a period of zero seconds.
    InvalidPeriod { pipeline: String },
    /// A fan-out pipeline was declared with no sinks.
    NoWriters { pipeline: String },
}

/// Whether one pipeline description satisfies every build-time check.
pub open spec fn op_valid(op: OperationConfig) -> bool {
    match op {
        OperationConfig::Interval { reader, writer, interval_secs, .. } => reader.fetch_capable()
            && writer.data_type_spec() == reader.data_type_spec() && interval_secs > 0,
        OperationConfig::Stream { reader, writer, .. } => reader.stream_capable()
            && writer.data_type_spec() == reader.data_type_spec(),
        OperationConfig::IntervalFanout { reader, writers, interval_secs, .. } => reader
            .fetch_capable() && writers@.len() > 0 && (forall|i: int|
            0 <= i < writers@.len() ==> #[trigger] writers@[i].data_type_spec()
                == reader.data_type_spec()) && interval_secs > 0,
    }
}

/// Whether a whole specification compiles: every description must pass.
pub open spec fn config_valid(config: Config) -> bool {
    forall|k: int|
        0 <= k < config.operations@.len() ==> op_valid(#[trigger] config.operations@[k])
}

/// Sink `i` is the first of the fan-out's sinks whose record shape cannot
/// be fed from the source's.
pub open spec fn mismatch_at(reader: ReaderConfig, writers: Seq<WriterConfig>, i: int) -> bool {
    0 <= i < writers.len() && writers[i].data_type_spec() != reader.data_type_spec() && (forall|
        j: int,
    |
        0 <= j < i ==> #[trigger] writers[j].data_type_spec() == reader.data_type_spec())
}

/// The error that the compiler reports for an invalid description: the
/// first check that fails, in the order the compiler applies them — source
/// capability, record-shape compatibility (sink list emptiness first, for
/// fan-out), then the period.
pub open spec fn error_describes(op: OperationConfig, e: CompileError) -> bool {
    match op {
        OperationConfig::Interval { name, reader, writer, .. } => if !reader.fetch_capable() {
            e matches CompileError::SourceNotFetchCapable { pipeline } && pipeline@ == name@
        } else if writer.data_type_spec() != reader.data_type_spec() {
            e matches CompileError::RecordTypeMismatch { pipeline, source_type, sink_type }
                && pipeline@ == name@ && source_type@ == reader.data_type_spec() && sink_type@
                == writer.data_type_spec()
        } else {
            e matches CompileError::InvalidPeriod { pipeline } && pipeline@ == name@
        },
        OperationConfig::Stream { name, reader, writer } => if !reader.stream_capable() {
            e matches CompileError::SourceNotStreamCapable { pipeline } && pipeline@ == name@
        } else {
            e matches CompileError::RecordTypeMismatch { pipeline, source_type, sink_type }
                && pipeline@ == name@ && source_type@ == reader.data_type_spec() && sink_type@
                == writer.data_type_spec()
        },
        OperationConfig::IntervalFanout { name, reader, writers, .. } => if !reader
            .fetch_capable() {
            e matches CompileError::SourceNotFetchCapable { pipeline } && pipeline@ == name@
        } else if writers@.len() == 0 {
            e matches CompileError::NoWriters { pipeline } && pipeline@ == name@
        } else if exists|i: int| mismatch_at(reader, writers@, i) {
            e matches CompileError::RecordTypeMismatch { pipeline, source_type, sink_type }
                && pipeline@ == name@ && source_type@ == reader.data_type_spec() && (exists|i: int|
                #[trigger] mismatch_at(reader, writers@, i) && sink_type@
                    == writers@[i].data_type_spec())
        } else {
            e matches CompileError::InvalidPeriod { pipeline } && pipeline@ == name@
        },
    }
}

/// The HTTP source binding a description resolves to.
pub open spec fn reader_resolves_api(cfg: ReaderConfig, r: ApiReader) -> bool {
    cfg matches ReaderConfig::ApiReader { url, data_type } && r.url@ == url@ && r.record_type@
        == data_type@
}

/// The topic source binding a description resolves to.
pub open spec fn reader_resolves_kafka(cfg: ReaderConfig, r: KafkaReader) -> bool {
    cfg matches ReaderConfig::KafkaReader { brokers, group_id, topics, data_type }
        && r.brokers@ == brokers@ && r.group_id@ == group_id@ && r.topics@.len() == topics@.len()
        && (forall|i: int| 0 <= i < topics@.len() ==> #[trigger] r.topics@[i]@ == topics@[i]@)
        && r.record_type@ == data_type@
}

/// The topic sink binding a description resolves to.
pub open spec fn writer_resolves(cfg: WriterConfig, w: KafkaWriter) -> bool {
    cfg matches WriterConfig::KafkaWriter { brokers, topic, data_type } && w.brokers@ == brokers@
        && w.topic@ == topic@ && w.record_type@ == data_type@
}

/// The instance a valid description compiles to: the matching strategy,
/// bound to the resolved source and sink(s), under the description's name.
pub open spec fn compiles_to(op: OperationConfig, p: PipelineInstance) -> bool {
    match op {
        OperationConfig::Interval { name, reader, writer, interval_secs } => p matches
            PipelineInstance::Interval(q) && q.id@ == name@ && reader_resolves_api(reader, q.reader)
            && writer_resolves(writer, q.writer) && q.interval_secs == interval_secs,
        OperationConfig::Stream { name, reader, writer } => p matches PipelineInstance::Stream(q)
            && q.id@ == name@ && reader_resolves_kafka(reader, q.reader) && writer_resolves(
            writer,
            q.writer,
        ),
        OperationConfig::IntervalFanout { name, reader, writers, interval_secs } => p matches
            PipelineInstance::IntervalFanout(q) && q.id@ == name@ && reader_resolves_api(
            reader,
            q.reader,
        ) && q.interval_secs == interval_secs && q.writers@.len() == writers@.len() && (forall|
            i: int,
        | 0 <= i < writers@.len() ==> writer_resolves(#[trigger] writers@[i], q.writers@[i])),
    }
}

fn resolve_reader_api(cfg: &ReaderConfig) -> (r: Option<ApiReader>)
    ensures
        r is Some <==> cfg.fetch_capable(),
        r matches Some(a) ==> reader_resolves_api(*cfg, a),
{
    match cfg {
        ReaderConfig::ApiReader { url, data_type } => Some(
            ApiReader::new(url.as_str()).with_type(data_type.as_str()),
        ),
        _ => None,
    }
}

fn resolve_reader_kafka(cfg: &ReaderConfig) -> (r: Option<KafkaReader>)
    ensures
        r is Some <==> cfg.stream_capable(),
        r matches Some(k) ==> reader_resolves_kafka(*cfg, k),
{
    match cfg {
        ReaderConfig::KafkaReader { brokers, group_id, topics, data_type } => {
            let mut borrowed: Vec<&str> = Vec::new();
            let mut i: usize = 0;
            while i < topics.len()
                invariant
                    i <= topics@.len(),
                    borrowed@.len() == i,
                    forall|j: int| 0 <= j < i ==> #[trigger] borrowed@[j]@ == topics@[j]@,
                decreases topics@.len() - i,
            {
                borrowed.push(topics[i].as_str());
                i = i + 1;
            }
            let ghost bview = borrowed@;
            let inner = KafkaReader::new(brokers.as_str(), group_id.as_str(), borrowed);
            let resolved = inner.with_type(data_type.as_str());
            proof {
                assert forall|j: int| 0 <= j < topics@.len() implies #[trigger] resolved.topics@[j]@
                    == topics@[j]@ by {
                    assert(inner.topics@[j]@ == bview[j]@);
                    assert(bview[j]@ == topics@[j]@);
                }
            }
            Some(resolved)
        },
        _ => None,
    }
}

fn resolve_writer(cfg: &WriterConfig) -> (w: KafkaWriter)
    ensures
        writer_resolves(*cfg, w),
{
    match cfg {
        WriterConfig::KafkaWriter { brokers, topic, data_type } => KafkaWriter::new(
            brokers.as_str(),
            topic.as_str(),
        ).with_type(data_type.as_str()),
    }
}

/// Builds one pipeline instance from one description, or reports the first
/// failed build-time check. Succeeds exactly on valid descriptions.
#[verifier::loop_isolation(false)]
pub fn build_operation(op: &OperationConfig) -> (r: Result<PipelineInstance, CompileError>)
    ensures
        r is Ok <==> op_valid(*op),
        r matches Ok(p) ==> compiles_to(*op, p),
        r matches Err(e) ==> error_describes(*op, e),
{
    match op {
        OperationConfig::Interval { name, reader, writer, interval_secs } => {
            let a = match resolve_reader_api(reader) {
                Some(a) => a,
                None => {
                    return Err(CompileError::SourceNotFetchCapable { pipeline: name.clone() });
                },
            };
            let w = resolve_writer(writer);
            if !(a.record_type == w.record_type) {
                return Err(
                    CompileError::RecordTypeMismatch {
                        pipeline: name.clone(),
                        source_type: a.record_type.clone(),
                        sink_type: w.record_type.clone(),
                    },
                );
            }
            if *interval_secs == 0 {
                return Err(CompileError::InvalidPeriod { pipeline: name.clone() });
            }
            Ok(
                PipelineInstance::Interval(
                    IntervalOperation::new(name.as_str(), a, w, *interval_secs),
                ),
            )
        },
        OperationConfig::Stream { name, reader, writer } => {
            let k = match resolve_reader_kafka(reader) {
                Some(k) => k,
                None => {
                    return Err(CompileError::SourceNotStreamCapable { pipeline: name.clone() });
                },
            };
            let w = resolve_writer(writer);
            if !(k.record_type == w.record_type) {
                return Err(
                    CompileError::RecordTypeMismatch {
                        pipeline: name.clone(),
                        source_type: k.record_type.clone(),
                        sink_type: w.record_type.clone(),
                    },
                );
            }
            Ok(PipelineInstance::Stream(StreamOperation::new(name.as_str(), k, w)))
        },
        OperationConfig::IntervalFanout { name, reader, writers, interval_secs } => {
            let a = match resolve_reader_api(reader) {
                Some(a) => a,
                None => {
                    return Err(CompileError::SourceNotFetchCapable { pipeline: name.clone() });
                },
            };
            if writers.len() == 0 {
                return Err(CompileError::NoWriters { pipeline: name.clone() });
            }
            let mut op_built = IntervalFanoutOperation::new(name.as_str(), a, *interval_secs);
            let mut i: usize = 0;
            while i < writers.len()
                invariant
                    i <= writers@.len(),
                    op_built.id@ == name@,
                    reader_resolves_api(*reader, op_built.reader),
                    op_built.interval_secs == *interval_secs,
                    op_built.writers@.len() == i,
                    forall|j: int|
                        0 <= j < i ==> writer_resolves(
                            #[trigger] writers@[j],
                            op_built.writers@[j],
                        ),
                    forall|j: int|
                        0 <= j < i ==> #[trigger] writers@[j].data_type_spec()
                            == reader.data_type_spec(),
                decreases writers@.len() - i,
            {
                let w = resolve_writer(&writers[i]);
                if !(op_built.reader.record_type == w.record_type) {
                    proof {
                        assert(mismatch_at(*reader, writers@, i as int));
                    }
                    return Err(
                        CompileError::RecordTypeMismatch {
                            pipeline: name.clone(),
                            source_type: op_built.reader.record_type.clone(),
                            sink_type: w.record_type.clone(),
                        },
                    );
                }
                op_built.add_writer(w);
                i = i + 1;
            }
            if *interval_secs == 0 {
                return Err(CompileError::InvalidPeriod { pipeline: name.clone() });
            }
            Ok(PipelineInstance::IntervalFanout(op_built))
        },
    }
}

/// Compiles the whole specification, all or nothing: on success, one
/// instance per description, in order, each built as `compiles_to`
/// describes; on any violation, the first offending description's error —
/// and zero instances for every description in the batch.
pub fn compile(config: &Config) -> (r: Result<Vec<PipelineInstance>, CompileError>)
    ensures
        r is Ok <==> config_valid(*config),
        r matches Ok(ops) ==> ops@.len() == config.operations@.len() && (forall|k: int|
            0 <= k < ops@.len() ==> compiles_to(config.operations@[k], #[trigger] ops@[k])),
        r matches Err(e) ==> exists|k: int|
            0 <= k < config.operations@.len() && !op_valid(#[trigger] config.operations@[k])
                && error_describes(config.operations@[k], e) && (forall|j: int|
                0 <= j < k ==> op_valid(#[trigger] config.operations@[j])),
{
    let mut ops: Vec<PipelineInstance> = Vec::new();
    let mut k: usize = 0;
    while k < config.operations.len()
        invariant
            k <= config.operations@.len(),
            ops@.len() == k,
            forall|j: int|
                0 <= j < k ==> compiles_to(config.operations@[j], #[trigger] ops@[j]),
            forall|j: int| 0 <= j < k ==> op_valid(#[trigger] config.operations@[j]),
        decreases config.operations@.len() - k,
    {
        match build_operation(&config.operations[k]) {
            Ok(p) => {
                ops.push(p);
            },
            Err(e) => {
                return Err(e);
            },
        }
        k = k + 1;
    }
    Ok(ops)
}

/// Compiles the specification and hands the instances to a supervisor,
/// ready to run. Succeeds exactly when the whole specification is valid.
pub fn courier_from_config(config: &Config) -> (r: Result<Courier, CompileError>)
    ensures
        r is Ok <==> config_valid(*config),
        r matches Ok(c) ==> c.operations@.len() == config.operations@.len() && (forall|k: int|
            0 <= k < c.operations@.len() ==> compiles_to(
                config.operations@[k],
                #[trigger] c.operations@[k],
            )),
        r matches Err(e) ==> exists|k: int|
            0 <= k < config.operations@.len() && !op_valid(#[trigger] config.operations@[k])
                && error_describes(config.operations@[k], e) && (forall|j: int|
                0 <= j < k ==> op_valid(#[trigger] config.operations@[j])),
{
    match compile(config) {
        Ok(ops) => Ok(Courier::new(ops)),
        Err(e) => Err(e),
    }
}

} // verus!
