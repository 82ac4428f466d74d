//! The declarative pipeline description model: a list of named pipeline
//! descriptions, each choosing a strategy, a source, one or more sinks, and
//! (for the interval strategies) a period.

use vstd::prelude::*;

verus! {

/// A full declarative specification: the ordered list of pipelines to build.
pub struct Config {
    pub operations: Vec<OperationConfig>,
}

/// One named pipeline description. `Interval` and `Stream` feed one sink;
/// `IntervalFanout` broadcasts to a list of sinks. The two interval variants
/// carry a period in seconds, which must be positive; the stream variant
/// has none.
pub enum OperationConfig {
    Interval { name: String, reader: ReaderConfig, writer: WriterConfig, interval_secs: u64 },
    Stream { name: String, reader: ReaderConfig, writer: WriterConfig },
    IntervalFanout {
        name: String,
        reader: ReaderConfig,
        writers: Vec<WriterConfig>,
        interval_secs: u64,
    },
}

/// A source description. `data_type` names the wire shape the records
/// deserialize into.
pub enum ReaderConfig {
    KafkaReader { brokers: String, group_id: String, topics: Vec<String>, data_type: String },
    ApiReader { url: String, data_type: String },
}

/// A sink description. One sink kind exists today; the tag admits future
/// kinds without breaking the model.
pub enum WriterConfig {
    KafkaWriter { brokers: String, topic: String, data_type: String },
}

impl OperationConfig {
    /// The pipeline's diagnostic name.
    pub open spec fn name_spec(&self) -> Seq<char> {
        match self {
            OperationConfig::Interval { name, .. } => name@,
            OperationConfig::Stream { name, .. } => name@,
            OperationConfig::IntervalFanout { name, .. } => name@,
        }
    }
}

impl ReaderConfig {
    /// The record shape this source produces.
    pub open spec fn data_type_spec(&self) -> Seq<char> {
        match self {
            ReaderConfig::KafkaReader { data_type, .. } => data_type@,
            ReaderConfig::ApiReader { data_type, .. } => data_type@,
        }
    }

    /// Whether the underlying connector offers the one-shot fetch
    /// capability (required by the interval strategies).
    pub open spec fn fetch_capable(&self) -> bool {
        self is ApiReader
    }

    /// Whether the underlying connector offers the continuous-sequence
    /// capability (required by the stream strategy).
    pub open spec fn stream_capable(&self) -> bool {
        self is KafkaReader
    }
}

impl WriterConfig {
    /// The record shape this sink consumes.
    pub open spec fn data_type_spec(&self) -> Seq<char> {
        match self {
            WriterConfig::KafkaWriter { data_type, .. } => data_type@,
        }
    }
}

} // verus!
