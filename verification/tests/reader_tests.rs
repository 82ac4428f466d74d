use courier::readers::FetchError;
use courier::readers::api::{ApiReader, status_check};
use courier::readers::kafka::{KafkaReader, RawField};

#[test]
fn api_reader_builds_its_binding() {
    let r = ApiReader::new("http://192.168.1.4:8000");
    assert_eq!(r.url, "http://192.168.1.4:8000");
    assert_eq!(r.record_type, "Value");
    let r = r.with_type("ApiItalo");
    assert_eq!(r.url, "http://192.168.1.4:8000");
    assert_eq!(r.record_type, "ApiItalo");
}

#[test]
fn status_check_accepts_exactly_2xx() {
    assert!(status_check(200).is_ok());
    assert!(status_check(299).is_ok());
    for status in [199u16, 300, 404, 500] {
        match status_check(status) {
            Err(FetchError::HttpStatus { status: s }) => assert_eq!(s, status),
            _ => panic!("a non-2xx status must be rejected with its code"),
        }
    }
}

fn reader() -> KafkaReader {
    KafkaReader::new("localhost:9092", "group-id-1", vec!["topic1", "topic2"]).with_type("Value")
}

#[test]
fn kafka_reader_builds_its_binding() {
    let r = reader();
    assert_eq!(r.brokers, "localhost:9092");
    assert_eq!(r.group_id, "group-id-1");
    assert_eq!(r.topics, vec!["topic1".to_string(), "topic2".to_string()]);
    assert_eq!(r.record_type, "Value");
}

#[test]
fn keyed_item_keeps_its_key() {
    let m = reader()
        .process_item(
            RawField::Text("k1".to_string()),
            RawField::Text("{\"a\":1}".to_string()),
            true,
        )
        .expect("a decodable item must be yielded");
    assert_eq!(m.key, "k1");
    assert_eq!(m.value.body, "{\"a\":1}");
}

#[test]
fn keyless_item_gets_the_default_key() {
    let m = reader()
        .process_item(RawField::Missing, RawField::Text("{}".to_string()), true)
        .expect("a keyless item is still yielded");
    assert_eq!(m.key, "Value");
    assert_eq!(m.value.body, "{}");
}

#[test]
fn undecodable_items_are_skipped() {
    let r = reader();
    assert!(r.process_item(RawField::NotText, RawField::Text("{}".to_string()), true).is_none());
    assert!(r.process_item(RawField::Text("k".to_string()), RawField::Missing, true).is_none());
    assert!(r.process_item(RawField::Text("k".to_string()), RawField::NotText, true).is_none());
    assert!(
        r.process_item(
            RawField::Text("k".to_string()),
            RawField::Text("not json".to_string()),
            false,
        ).is_none()
    );
}
