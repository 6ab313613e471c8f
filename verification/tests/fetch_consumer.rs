use fluvio_client_node::consumer::response::AbortedTransaction;
use fluvio_client_node::fetch_consumer::{
    FetchablePartitionResponse, FetchablePartitionResponseWrapper, PartitionConsumerJS,
    PartitionConsumerWrapper, RecordSetWrapper,
};
use fluvio_client_node::records::{BatchHeader, RawBatch, RawRecord, RawRecordSet};

fn header() -> BatchHeader {
    BatchHeader {
        partition_leader_epoch: 1,
        magic: -1,
        crc: 7,
        attributes: -3,
        last_offset_delta: 2,
        first_timestamp: 3,
        max_time_stamp: 4,
        producer_id: 5,
        producer_epoch: 6,
        first_sequence: 7,
    }
}

fn records() -> RawRecordSet {
    RawRecordSet {
        batches: vec![RawBatch {
            base_offset: 4,
            batch_len: 60,
            header: header(),
            records: vec![
                RawRecord { value: Some(b"ok".to_vec()), headers: 2 },
                RawRecord { value: None, headers: 0 },
                RawRecord { value: Some(vec![0xc3]), headers: 0 },
            ],
        }],
    }
}

#[test]
fn target_defaults_to_default_topic_and_partition_zero() {
    let c: PartitionConsumerJS<u8> = PartitionConsumerJS::new();
    let (topic, partition) = c.target();
    assert_eq!(topic, "default");
    assert_eq!(partition, 0);
    assert!(c.client().is_err());
}

#[test]
fn target_uses_what_was_set() {
    let w = PartitionConsumerWrapper::new(1u8, "events".to_string(), 4);
    let c = PartitionConsumerJS::from_wrapper(w);
    assert_eq!(c.target(), ("events".to_string(), 4));
    assert_eq!(*c.client().ok().unwrap(), 1);
    let mut c: PartitionConsumerJS<u8> = PartitionConsumerJS::new();
    c.set_partition(2);
    assert_eq!(c.target(), ("default".to_string(), 2));
    c.set_topic("t".to_string());
    c.set_client(5);
    assert_eq!(c.target(), ("t".to_string(), 2));
}

#[test]
fn record_values_default_to_empty_text() {
    let js = RecordSetWrapper(records()).to_js();
    let b = &js.batches[0];
    assert_eq!(b.base_offset, 4);
    assert_eq!(b.batch_length, 60);
    assert_eq!(b.header.magic, -1);
    assert_eq!(b.header.attributes, -3);
    assert_eq!(b.records[0].value, "ok");
    assert_eq!(b.records[0].headers, 2);
    assert_eq!(b.records[1].value, "");
    assert_eq!(b.records[2].value, "");
}

#[test]
fn fetched_partition_shown_to_js() {
    let w = FetchablePartitionResponseWrapper(FetchablePartitionResponse {
        partition_index: 1,
        error_code: -1,
        high_watermark: 10,
        last_stable_offset: 9,
        log_start_offset: 0,
        aborted: Some(vec![AbortedTransaction { producer_id: 3, first_offset: 4 }]),
        records: records(),
    });
    let js = w.to_js();
    assert_eq!(js.partition_index, 1);
    assert_eq!(js.high_watermark, 10);
    assert_eq!(js.last_stable_offset, 9);
    assert_eq!(js.aborted.as_ref().unwrap()[0].first_offset, 4);
    assert_eq!(js.records.batches[0].records[0].value, "ok");
}
