use status_monitor::kafka_parser::{KafkaParser, ParseError, Utf8Failure};
use status_monitor::kafka_source::{wrap_fetched, Config, FallbackOffset, FetchedMessage, KafkaMessage, OffsetStorage};
use status_monitor::message::TxMessage;
use status_monitor::settings;
use status_monitor::status::{Status, Timestamp};

fn record(body: Vec<u8>) -> TxMessage<KafkaMessage> {
    TxMessage {
        msg: KafkaMessage { topic: "statuses".to_string(), offset: 7, key: vec![], body },
        id: "tx-9".to_string(),
    }
}

#[test]
fn utf8_body_is_decoded_under_the_same_id() {
    let parser: KafkaParser<u8, u8> = KafkaParser::new(vec![1], 2);
    let text = "{\"name\":\"db\",\"status\":\"ok ✓\"}";
    let decoded = parser.handle(record(text.as_bytes().to_vec())).expect("utf8");
    assert_eq!(decoded.id, "tx-9");
    assert_eq!(decoded.msg, text);
}

#[test]
fn empty_body_decodes_to_empty_text() {
    let parser: KafkaParser<u8, u8> = KafkaParser::new(vec![], 0);
    assert_eq!(parser.handle(record(vec![])).expect("utf8").msg, "");
}

#[test]
fn invalid_utf8_is_a_utf8_error() {
    let parser: KafkaParser<u8, u8> = KafkaParser::new(vec![], 0);
    let cases: Vec<(Vec<u8>, usize, Option<usize>)> = vec![
        (vec![0xff], 0, Some(1)),
        (vec![0xc0, 0x80], 0, Some(1)),
        (vec![0xed, 0xa0, 0x80], 0, Some(1)),
        (vec![b'o', b'k', 0xff, b'x'], 2, Some(1)),
        (vec![b'a', 0xe2, 0x82], 1, None),
    ];
    for (bad, valid_up_to, error_len) in cases {
        let err = parser.handle(record(bad.clone())).expect_err("not utf8");
        assert_eq!(err.id, "tx-9");
        match err.msg {
            ParseError::Utf8Err(f) => {
                assert_eq!(f, Utf8Failure { bytes: bad, valid_up_to, error_len });
            }
            other => panic!("unexpected {:?}", other),
        }
    }
}

#[test]
fn parsed_status_is_passed_on() {
    let parser: KafkaParser<u8, u8> = KafkaParser::new(vec![1, 2], 3);
    let status = Status {
        name: "db".to_string(),
        timestamp: Timestamp { seconds: 1, nanoseconds: 2 },
        status: "up".to_string(),
        description: String::new(),
        account_id: "a".to_string(),
    };
    let routed = parser.accept_parsed(TxMessage { msg: Ok(status), id: "t".to_string() }).expect("ok");
    assert_eq!(routed.id, "t");
    assert_eq!(routed.msg.name, "db");
    assert_eq!(parser.status_recipients(), &vec![1, 2]);
    assert_eq!(*parser.error_recipient(), 3);
}

#[test]
fn json_failure_is_a_serde_error() {
    let parser: KafkaParser<u8, u8> = KafkaParser::new(vec![], 0);
    let err = serde_json::from_str::<serde_json::Value>("{").unwrap_err();
    let routed = parser.accept_parsed(TxMessage { msg: Err(err), id: "t".to_string() }).expect_err("err");
    assert_eq!(routed.id, "t");
    assert!(matches!(routed.msg, ParseError::SerdeErr(_)));
}

#[test]
fn fetched_records_are_tagged_in_order_with_fresh_ids() {
    let fetched = vec![
        FetchedMessage { offset: 3, key: b"k1".to_vec(), value: b"v1".to_vec() },
        FetchedMessage { offset: 4, key: vec![], value: b"v2".to_vec() },
    ];
    let wrapped = wrap_fetched(&"statuses".to_string(), fetched);
    assert_eq!(wrapped.len(), 2);
    assert_eq!(wrapped[0].msg, KafkaMessage { topic: "statuses".to_string(), offset: 3, key: b"k1".to_vec(), body: b"v1".to_vec() });
    assert_eq!(wrapped[1].msg, KafkaMessage { topic: "statuses".to_string(), offset: 4, key: vec![], body: b"v2".to_vec() });
    assert_eq!(wrapped[0].id.len(), 36);
    assert_ne!(wrapped[0].id, wrapped[1].id);
}

#[test]
fn consumer_config_keeps_offsets_in_kafka_from_earliest() {
    let cfg = Config::new(vec!["localhost:9092".to_string()], "grp".to_string(), vec!["t".to_string()]);
    assert_eq!(cfg.brokers(), &vec!["localhost:9092".to_string()]);
    assert_eq!(cfg.group(), "grp");
    assert_eq!(cfg.topics(), &vec!["t".to_string()]);
    assert_eq!(cfg.offset_storage(), OffsetStorage::Kafka);
    assert_eq!(cfg.fallback_offset(), FallbackOffset::Earliest);
}

#[test]
fn service_config_reads_one_topic() {
    let c = settings::Config {
        brokers: vec!["b1".to_string(), "b2".to_string()],
        group: "g".to_string(),
        topic: "statuses".to_string(),
        webhook_url: "http://hook".to_string(),
        redis_uri: "redis://127.0.0.1/".to_string(),
    };
    let k = c.kafka_config();
    assert_eq!(k.brokers(), &c.brokers);
    assert_eq!(k.group(), "g");
    assert_eq!(k.topics(), &vec!["statuses".to_string()]);
    assert_eq!(k.offset_storage(), OffsetStorage::Kafka);
}
