use fluvio_client_node::connect::{connect_target, ConnectTarget};
use fluvio_client_node::consumer::RecordJS;
use fluvio_client_node::filter::{keeps, LogRecord};
use fluvio_client_node::fluvio::{Compression, FluvioJS, TopicProducerConfigWrapper};
use fluvio_client_node::producer::{record_for, record_for_value, records_for, ProduceArg, TopicProducerJS};
use fluvio_client_node::records::Record;
use fluvio_client_node::CLIENT_NOT_FOUND_ERROR_MSG;

#[test]
fn fluvio_handle_client() {
    let mut f: FluvioJS<String> = FluvioJS::new();
    assert_eq!(f.client().err().unwrap().0, CLIENT_NOT_FOUND_ERROR_MSG);
    f.set_client("cluster".to_string());
    assert_eq!(f.client().ok().unwrap(), "cluster");
}

#[test]
fn producer_handle_client() {
    let mut p: TopicProducerJS<u8> = TopicProducerJS::new();
    assert!(p.client().is_err());
    p.set_client(1);
    assert_eq!(*p.client().ok().unwrap(), 1);
}

#[test]
fn send_record_uses_empty_key_and_utf8_value() {
    let (key, value) = record_for_value(&"héllo".to_string());
    assert!(key.is_empty());
    assert_eq!(value, "héllo".as_bytes().to_vec());
}

#[test]
fn sent_text_reads_back_as_the_same_text() {
    let text = "grüße, 世界".to_string();
    let (_, value) = record_for_value(&text);
    let read = RecordJS::from_record(Record { key: None, value, headers: 0 });
    assert_eq!(read.value_string(), text);
}

#[test]
fn send_takes_strings_and_buffers() {
    let (k, v) = record_for(&ProduceArg::String("key".to_string()), &ProduceArg::ArrayBuffer(vec![1, 2, 3]));
    assert_eq!(k, b"key".to_vec());
    assert_eq!(v, vec![1, 2, 3]);
}

#[test]
fn send_all_keeps_pairs_in_order() {
    let elements = vec![
        (ProduceArg::String("a".to_string()), ProduceArg::String("1".to_string())),
        (ProduceArg::ArrayBuffer(vec![9]), ProduceArg::ArrayBuffer(vec![])),
    ];
    let records = records_for(&elements);
    assert_eq!(records.len(), 2);
    assert_eq!(records[0], (b"a".to_vec(), b"1".to_vec()));
    assert_eq!(records[1], (vec![9], vec![]));
    assert!(records_for(&Vec::new()).is_empty());
}

#[test]
fn producer_config_reads_properties() {
    let w = TopicProducerConfigWrapper::from_properties(
        Some("zstd".to_string()),
        Some(1024),
        Some(16),
        None,
        Some(250),
    )
    .ok()
    .unwrap();
    assert_eq!(w.inner.compression, Some(Compression::Zstd));
    assert_eq!(w.inner.max_request_size, Some(1024));
    assert_eq!(w.inner.batch_size, Some(16));
    assert_eq!(w.inner.batch_queue_size, None);
    assert_eq!(w.inner.linger_ms, Some(250));
    let names = [
        ("none", Compression::NoCompression),
        ("gzip", Compression::Gzip),
        ("snappy", Compression::Snappy),
        ("lz4", Compression::Lz4),
    ];
    for (name, c) in names {
        let w = TopicProducerConfigWrapper::from_properties(Some(name.to_string()), None, None, None, None)
            .ok()
            .unwrap();
        assert_eq!(w.inner.compression, Some(c));
    }
    let w = TopicProducerConfigWrapper::from_properties(None, None, None, None, None).ok().unwrap();
    assert_eq!(w.inner.compression, None);
}

#[test]
fn producer_config_negative_size_wraps() {
    let w = TopicProducerConfigWrapper::from_properties(None, Some(-1), None, None, Some(-1)).ok().unwrap();
    assert_eq!(w.inner.max_request_size, Some(usize::MAX));
    assert_eq!(w.inner.linger_ms, Some(u64::MAX));
}

#[test]
fn producer_config_rejects_unknown_compression() {
    let e = TopicProducerConfigWrapper::from_properties(Some("brotli".to_string()), None, None, None, None)
        .err()
        .unwrap();
    assert_eq!(e.0, "Invalid compression type: brotli");
}

#[test]
fn connect_target_choice() {
    match connect_target(Some("localhost:9003".to_string()), Some(true)) {
        ConnectTarget::Host { host, use_spu_local_address } => {
            assert_eq!(host, "localhost:9003");
            assert_eq!(use_spu_local_address, Some(true));
        }
        ConnectTarget::Profile => panic!("expected a host"),
    }
    assert!(matches!(connect_target(None, Some(true)), ConnectTarget::Profile));
}

#[test]
fn log_filter_drops_debug_only() {
    let rec = |level: &str| LogRecord { level: level.to_string(), message: "m".to_string() };
    assert!(!keeps(&rec("debug")));
    assert!(keeps(&rec("info")));
    assert!(keeps(&rec("DEBUG")));
}
