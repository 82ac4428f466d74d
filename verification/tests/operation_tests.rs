use courier::operations::{
    IntervalFanoutOperation, IntervalOperation, Operation, PipelineInstance, StreamOperation,
};
use courier::readers::FetchError;
use courier::readers::api::ApiReader;
use courier::readers::kafka::KafkaReader;
use courier::schemas::Record;
use courier::writers::SendError;
use courier::writers::kafka::KafkaWriter;

fn record(body: &str) -> Record {
    Record::new(body.to_string())
}

fn poll_op(interval_secs: u64) -> IntervalOperation {
    IntervalOperation::new(
        "poll",
        ApiReader::new("http://host:8000").with_type("ApiItalo"),
        KafkaWriter::new("localhost:9092", "topic1").with_type("ApiItalo"),
        interval_secs,
    )
}

#[test]
fn interval_success_plans_one_send() {
    let op = poll_op(3);
    let plan = op.cycle_plan(&Ok(record("{\"message\":\"hi\"}")));
    let m = plan.expect("a successful fetch must be sent");
    assert_eq!(m.key, "ApiItalo");
    assert_eq!(m.value.body, "{\"message\":\"hi\"}");
}

#[test]
fn interval_fetch_failure_plans_no_send() {
    let op = poll_op(3);
    assert!(op.cycle_plan(&Err(FetchError::Timeout)).is_none());
    assert!(op.cycle_plan(&Err(FetchError::HttpStatus { status: 500 })).is_none());
}

#[test]
fn interval_failure_does_not_affect_next_cycle() {
    let op = poll_op(3);
    let fetches = vec![
        Ok(record("a")),
        Err(FetchError::ConnectionRefused),
        Ok(record("b")),
    ];
    let sends = op.run_cycles(&fetches);
    assert_eq!(sends.len(), 3);
    assert_eq!(sends[0].as_ref().unwrap().value.body, "a");
    assert!(sends[1].is_none());
    assert_eq!(sends[2].as_ref().unwrap().value.body, "b");
}

#[test]
fn interval_overrun_is_detected() {
    let op = poll_op(3);
    assert!(!op.cycle_overran(3));
    assert!(op.cycle_overran(4));
}

fn fanout_op() -> IntervalFanoutOperation {
    IntervalFanoutOperation::new(
        "fan",
        ApiReader::new("http://host:8000").with_type("Value"),
        5,
    )
    .with_writer(KafkaWriter::new("localhost:9092", "topic3").with_type("Value"))
    .with_writer(KafkaWriter::new("localhost:9092", "topic4").with_type("Value"))
}

#[test]
fn fanout_success_plans_one_send_per_writer() {
    let op = fanout_op();
    assert!(op.can_start());
    let sends = op.cycle_plan(&Ok(record("{\"n\":1}")));
    assert_eq!(sends.len(), 2);
    for m in &sends {
        assert_eq!(m.key, "Value");
        assert_eq!(m.value.body, "{\"n\":1}");
    }
    assert_eq!(op.writers[0].topic, "topic3");
    assert_eq!(op.writers[1].topic, "topic4");
}

#[test]
fn fanout_fetch_failure_plans_no_sends() {
    let op = fanout_op();
    assert!(op.cycle_plan(&Err(FetchError::Timeout)).is_empty());
}

#[test]
fn fanout_without_writers_idles() {
    let op = IntervalFanoutOperation::new(
        "fan",
        ApiReader::new("http://host:8000").with_type("Value"),
        5,
    );
    assert!(!op.can_start());
    assert!(op.cycle_plan(&Ok(record("x"))).is_empty());
}

#[test]
fn fanout_failure_does_not_affect_next_cycle() {
    let op = fanout_op();
    let fetches = vec![Err(FetchError::Unknown), Ok(record("y"))];
    let sends = op.run_cycles(&fetches);
    assert_eq!(sends.len(), 2);
    assert!(sends[0].is_empty());
    assert_eq!(sends[1].len(), 2);
    assert_eq!(sends[1][0].value.body, "y");
    assert_eq!(sends[1][1].value.body, "y");
}

fn relay_op() -> StreamOperation {
    StreamOperation::new(
        "relay",
        KafkaReader::new("localhost:9092", "group-id-1", vec!["topic1"]),
        KafkaWriter::new("localhost:9092", "topic2"),
    )
}

#[test]
fn stream_relays_every_item_in_order() {
    let op = relay_op();
    let items = vec![
        courier::schemas::kafka::KafkaMessage::new("k1", record("a")),
        courier::schemas::kafka::KafkaMessage::new("k2", record("b")),
        courier::schemas::kafka::KafkaMessage::new("k3", record("c")),
    ];
    let outcomes: Vec<Result<(), SendError>> = vec![Ok(()), Err(SendError::Delivery), Ok(())];
    let (sends, failed) = op.run_stream(items, &outcomes);
    assert_eq!(sends.len(), 3);
    assert_eq!(failed, 1);
    assert_eq!(sends[0].key, "k1");
    assert_eq!(sends[0].value.body, "a");
    assert_eq!(sends[1].key, "k2");
    assert_eq!(sends[1].value.body, "b");
    assert_eq!(sends[2].key, "k3");
    assert_eq!(sends[2].value.body, "c");
}

#[test]
fn stream_stops_after_last_item() {
    let op = relay_op();
    let items = vec![courier::schemas::kafka::KafkaMessage::new("k", record("only"))];
    let outcomes: Vec<Result<(), SendError>> = vec![Ok(())];
    let (sends, failed) = op.run_stream(items, &outcomes);
    assert_eq!(sends.len(), 1);
    assert_eq!(failed, 0);

    let (no_sends, no_failed) = op.run_stream(Vec::new(), &Vec::new());
    assert!(no_sends.is_empty());
    assert_eq!(no_failed, 0);
}

#[test]
fn instances_report_their_names() {
    let p = PipelineInstance::Interval(poll_op(3));
    assert_eq!(p.id(), "poll");
    let s = PipelineInstance::Stream(relay_op());
    assert_eq!(s.id(), "relay");
    let f = PipelineInstance::IntervalFanout(fanout_op());
    assert_eq!(f.id(), "fan");
}
