//! The message shape that topic sinks deliver and topic sources produce: a
//! payload together with a text key.

use vstd::prelude::*;

use crate::schemas::Named;
use crate::schemas::Record;

verus! {

/// A keyed message. Topic sources yield these (the key taken from the
/// consumed message) and topic sinks consume them (the key selects the
/// partition on delivery).
pub struct KafkaMessage<T> {
    pub key: String,
    pub value: T,
}

impl<T> KafkaMessage<T> {
    pub fn new(key: &str, value: T) -> (m: Self)
        ensures
            m.key@ == key@,
            m.value == value,
    {
        KafkaMessage { key: key.to_owned(), value }
    }
}

impl<T: Named> KafkaMessage<T> {
    /// The conversion from a bare record to a keyed message: the record's
    /// shape identifier becomes the key, the record itself the payload.
    pub fn keyed(value: T) -> (m: Self)
        ensures
            m.key@ == T::id_spec(),
            m.value == value,
    {
        let id = value.get_id();
        KafkaMessage::new(id, value)
    }
}

impl Clone for KafkaMessage<Record> {
    fn clone(&self) -> (m: Self)
        ensures
            m == *self,
    {
        KafkaMessage { key: self.key.clone(), value: self.value.clone() }
    }
}

} // verus!
