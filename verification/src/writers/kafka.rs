//! The binding of a topic-producing sink: one topic on one broker set,
//! delivering keyed messages of a declared record shape.

use vstd::prelude::*;

verus! {

/// A one-shot topic sink: each send delivers one keyed message to `topic`
/// on `brokers`. The payload's wire encoding is the serialized record of
/// shape `record_type`.
pub struct KafkaWriter {
    pub brokers: String,
    pub topic: String,
    pub record_type: String,
}

impl KafkaWriter {
    /// A writer delivering to `topic` on `brokers`, initially accepting
    /// untyped JSON payloads.
    pub fn new(brokers: &str, topic: &str) -> (r: KafkaWriter)
        ensures
            r.brokers@ == brokers@,
            r.topic@ == topic@,
            r.record_type@ == "Value"@,
    {
        KafkaWriter {
            brokers: brokers.to_owned(),
            topic: topic.to_owned(),
            record_type: "Value".to_owned(),
        }
    }

    /// The same writer, now declared to accept records of the named shape.
    pub fn with_type(self, record_type: &str) -> (r: KafkaWriter)
        ensures
            r.brokers@ == self.brokers@,
            r.topic@ == self.topic@,
            r.record_type@ == record_type@,
    {
        KafkaWriter { brokers: self.brokers, topic: self.topic, record_type: record_type.to_owned() }
    }
}

impl Clone for KafkaWriter {
    fn clone(&self) -> (r: Self)
        ensures
            r == *self,
    {
        KafkaWriter {
            brokers: self.brokers.clone(),
            topic: self.topic.clone(),
            record_type: self.record_type.clone(),
        }
    }
}

} // verus!
