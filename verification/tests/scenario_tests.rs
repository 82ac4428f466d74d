//! End-to-end scenarios: a declarative specification is compiled and the
//! resulting instance's decision logic is driven through one slice of its
//! run.

use courier::compile::courier_from_config;
use courier::config::{Config, OperationConfig, ReaderConfig, WriterConfig};
use courier::operations::PipelineInstance;
use courier::schemas::Record;
use courier::schemas::kafka::KafkaMessage;
use courier::writers::SendError;

#[test]
fn kafka_to_kafka_stream_relays_consumed_records() {
    let config = Config {
        operations: vec![OperationConfig::Stream {
            name: "kafka->kafka".to_string(),
            reader: ReaderConfig::KafkaReader {
                brokers: "localhost:9092".to_string(),
                group_id: "user-events-consumer".to_string(),
                topics: vec!["topic1".to_string()],
                data_type: "Value".to_string(),
            },
            writer: WriterConfig::KafkaWriter {
                brokers: "localhost:9092".to_string(),
                topic: "topic2".to_string(),
                data_type: "Value".to_string(),
            },
        }],
    };
    let courier = courier_from_config(&config).unwrap();
    assert_eq!(courier.len(), 1);
    let ops = courier.into_operations();
    let relay = match &ops[0] {
        PipelineInstance::Stream(op) => op,
        _ => panic!("expected a stream instance"),
    };
    assert_eq!(relay.id, "kafka->kafka");
    assert_eq!(relay.reader.topics, vec!["topic1".to_string()]);
    assert_eq!(relay.writer.topic, "topic2");

    // Records consumed from topic1 arrive keyed by the reader's rule; the
    // relay delivers each to topic2 unchanged in content and key.
    let consumed = vec![
        KafkaMessage::new("k1", Record::new("{\"a\":1}".to_string())),
        KafkaMessage::new("k2", Record::new("{\"a\":2}".to_string())),
    ];
    let outcomes: Vec<Result<(), SendError>> = vec![Ok(()), Ok(())];
    let (sends, failed) = relay.run_stream(consumed, &outcomes);
    assert_eq!(failed, 0);
    assert_eq!(sends.len(), 2);
    assert_eq!(sends[0].key, "k1");
    assert_eq!(sends[0].value.body, "{\"a\":1}");
    assert_eq!(sends[1].key, "k2");
    assert_eq!(sends[1].value.body, "{\"a\":2}");
}

#[test]
fn api_to_multi_fanout_writes_to_both_topics() {
    let config = Config {
        operations: vec![OperationConfig::IntervalFanout {
            name: "api->multi".to_string(),
            reader: ReaderConfig::ApiReader {
                url: "http://host:8000".to_string(),
                data_type: "Value".to_string(),
            },
            writers: vec![
                WriterConfig::KafkaWriter {
                    brokers: "localhost:9092".to_string(),
                    topic: "topic3".to_string(),
                    data_type: "Value".to_string(),
                },
                WriterConfig::KafkaWriter {
                    brokers: "localhost:9092".to_string(),
                    topic: "topic4".to_string(),
                    data_type: "Value".to_string(),
                },
            ],
            interval_secs: 5,
        }],
    };
    let courier = courier_from_config(&config).unwrap();
    let ops = courier.into_operations();
    let fan = match &ops[0] {
        PipelineInstance::IntervalFanout(op) => op,
        _ => panic!("expected a fan-out instance"),
    };
    assert_eq!(fan.id, "api->multi");
    assert_eq!(fan.interval_secs, 5);
    assert_eq!(fan.reader.url, "http://host:8000");
    assert_eq!(fan.writers.len(), 2);
    assert_eq!(fan.writers[0].topic, "topic3");
    assert_eq!(fan.writers[1].topic, "topic4");

    // One successful fetch per cycle: the identical record goes to each of
    // the two sinks within that cycle.
    let sends = fan.cycle_plan(&Ok(Record::new("{\"tick\":1}".to_string())));
    assert_eq!(sends.len(), 2);
    assert_eq!(sends[0].value.body, "{\"tick\":1}");
    assert_eq!(sends[1].value.body, "{\"tick\":1}");
    assert_eq!(sends[0].key, "Value");
    assert_eq!(sends[1].key, "Value");
}
