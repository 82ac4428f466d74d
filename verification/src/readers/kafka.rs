//! The binding of a topic-consuming source, and the per-item decisions of
//! its continuous sequence: which received messages become records and
//! which are skipped.

use vstd::prelude::*;

use crate::schemas::Record;
use crate::schemas::kafka::KafkaMessage;

verus! {

/// A continuous topic source: a consumer in `group_id` subscribed to
/// `topics` on `brokers`, yielding keyed messages whose payloads decode to
/// records of shape `record_type`.
pub struct KafkaReader {
    pub brokers: String,
    pub group_id: String,
    pub topics: Vec<String>,
    pub record_type: String,
}

/// One field of a received raw message, as the transport hands it over:
/// absent, present but not decodable as text, or decoded text.
pub enum RawField {
    Missing,
    NotText,
    Text(String),
}

impl Clone for KafkaReader {
    fn clone(&self) -> (r: Self)
        ensures
            r.brokers@ == self.brokers@,
            r.group_id@ == self.group_id@,
            r.topics@.len() == self.topics@.len(),
            forall|i: int| 0 <= i < self.topics@.len() ==> #[trigger] r.topics@[i]@
                == self.topics@[i]@,
            r.record_type@ == self.record_type@,
    {
        let cloned_topics = self.topics.clone();
        proof {
            assert forall|i: int| 0 <= i < self.topics@.len() implies #[trigger] cloned_topics@[i]@
                == self.topics@[i]@ by {
                assert(cloned::<String>(self.topics@[i], cloned_topics@[i]));
            }
        }
        KafkaReader {
            brokers: self.brokers.clone(),
            group_id: self.group_id.clone(),
            topics: cloned_topics,
            record_type: self.record_type.clone(),
        }
    }
}

/// The outcome the continuous sequence owes for one received raw message:
/// skipped (`None`) whenever the key is undecodable text, the payload is
/// absent, undecodable or not well-formed for the declared shape; otherwise
/// a keyed message carrying the payload text, keyed by the message's own
/// key text or — when the message had none — by `record_type`.
pub open spec fn item_outcome(
    record_type: Seq<char>,
    key: RawField,
    payload: RawField,
    payload_well_formed: bool,
    r: Option<KafkaMessage<Record>>,
) -> bool {
    match (key, payload) {
        (RawField::Text(k), RawField::Text(p)) => if payload_well_formed {
            r matches Some(m) && m.key@ == k@ && m.value.body@ == p@
        } else {
            r is None
        },
        (RawField::Missing, RawField::Text(p)) => if payload_well_formed {
            r matches Some(m) && m.key@ == record_type && m.value.body@ == p@
        } else {
            r is None
        },
        _ => r is None,
    }
}

impl KafkaReader {
    /// A reader consuming `topics` on `brokers` as consumer group
    /// `group_id`, initially producing untyped JSON payloads.
    pub fn new(brokers: &str, group_id: &str, topics: Vec<&str>) -> (r: KafkaReader)
        ensures
            r.brokers@ == brokers@,
            r.group_id@ == group_id@,
            r.topics@.len() == topics@.len(),
            forall|i: int| 0 <= i < topics@.len() ==> r.topics@[i]@ == topics@[i]@,
            r.record_type@ == "Value"@,
    {
        let mut owned: Vec<String> = Vec::new();
        let mut i: usize = 0;
        while i < topics.len()
            invariant
                i <= topics@.len(),
                owned@.len() == i,
                forall|j: int| 0 <= j < i ==> owned@[j]@ == topics@[j]@,
            decreases topics@.len() - i,
        {
            owned.push(topics[i].to_owned());
            i = i + 1;
        }
        KafkaReader {
            brokers: brokers.to_owned(),
            group_id: group_id.to_owned(),
            topics: owned,
            record_type: "Value".to_owned(),
        }
    }

    /// The same reader, now declared to produce records of the named shape.
    pub fn with_type(self, record_type: &str) -> (r: KafkaReader)
        ensures
            r.brokers@ == self.brokers@,
            r.group_id@ == self.group_id@,
            r.topics == self.topics,
            r.record_type@ == record_type@,
    {
        KafkaReader {
            brokers: self.brokers,
            group_id: self.group_id,
            topics: self.topics,
            record_type: record_type.to_owned(),
        }
    }

    /// The per-item decision of the continuous sequence. A message whose
    /// key or payload cannot be decoded as text, whose payload is absent,
    /// or whose payload is not well-formed for the declared shape, is
    /// skipped (the sequence moves on; it never terminates on such an
    /// item). A present, decodable item becomes a keyed message: the key is
    /// the message's own key text (handed over already trimmed by the
    /// transport decode), or the reader's record shape name when the
    /// message carried no key.
    pub fn process_item(&self, key: RawField, payload: RawField, payload_well_formed: bool) -> (r:
        Option<KafkaMessage<Record>>)
        ensures
            item_outcome(self.record_type@, key, payload, payload_well_formed, r),
    {
        let body = match payload {
            RawField::Text(p) => p,
            _ => {
                return None;
            },
        };
        if !payload_well_formed {
            return None;
        }
        match key {
            RawField::Text(k) => Some(KafkaMessage::new(k.as_str(), Record::new(body))),
            RawField::Missing => Some(
                KafkaMessage::new(self.record_type.as_str(), Record::new(body)),
            ),
            RawField::NotText => None,
        }
    }
}

} // verus!
