use fluvio_client_node::records::{BatchHeader, RawBatch, RawRecord, RawRecordSet};
use fluvio_client_node::replica::{
    batches_of, consumed_records, produced_length, FetchOffset, FetchOffsetArg, Isolation,
    JsFetchLogOption, JsFetchOffset, JsPrimitive, JsReplicaLeader, ReplicaLeaderWrapper,
};

fn header() -> BatchHeader {
    BatchHeader {
        partition_leader_epoch: 0,
        magic: 2,
        crc: 0,
        attributes: 0,
        last_offset_delta: 0,
        first_timestamp: 0,
        max_time_stamp: 0,
        producer_id: 0,
        producer_epoch: 0,
        first_sequence: 0,
    }
}

fn raw(value: Option<&[u8]>) -> RawRecord {
    RawRecord { value: value.map(|v| v.to_vec()), headers: 0 }
}

fn set() -> RawRecordSet {
    RawRecordSet {
        batches: vec![
            RawBatch {
                base_offset: 10,
                batch_len: 0,
                header: header(),
                records: vec![raw(Some(b"a")), raw(None), raw(Some(b"b"))],
            },
            RawBatch { base_offset: 20, batch_len: 0, header: header(), records: vec![raw(Some(b"c"))] },
        ],
    }
}

#[test]
fn fetch_offset_number_and_names() {
    assert_eq!(JsFetchOffset::from_arg(FetchOffsetArg::Number(50)).ok().unwrap().0, FetchOffset::Offset(50));
    assert_eq!(
        JsFetchOffset::from_arg(FetchOffsetArg::Text("earliest".to_string())).ok().unwrap().0,
        FetchOffset::Earliest(None)
    );
    assert_eq!(
        JsFetchOffset::from_arg(FetchOffsetArg::Text("latest".to_string())).ok().unwrap().0,
        FetchOffset::Latest(None)
    );
}

#[test]
fn fetch_offset_objects() {
    let arg = FetchOffsetArg::Object {
        offset: Some(JsPrimitive::Number(20)),
        start: Some(JsPrimitive::Text("earliest".to_string())),
    };
    assert_eq!(JsFetchOffset::from_arg(arg).ok().unwrap().0, FetchOffset::Earliest(Some(20)));
    let arg = FetchOffsetArg::Object { offset: None, start: Some(JsPrimitive::Text("latest".to_string())) };
    assert_eq!(JsFetchOffset::from_arg(arg).ok().unwrap().0, FetchOffset::Latest(Some(0)));
    let arg = FetchOffsetArg::Object { offset: Some(JsPrimitive::Number(7)), start: None };
    assert_eq!(JsFetchOffset::from_arg(arg).ok().unwrap().0, FetchOffset::Offset(7));
}

#[test]
fn fetch_offset_errors() {
    let e = JsFetchOffset::from_arg(FetchOffsetArg::Text("first".to_string())).err().unwrap();
    assert_eq!(e.0, "invalid fetch offset: first, valid values are: earliest/latest");
    let arg = FetchOffsetArg::Object { offset: Some(JsPrimitive::Text("x".to_string())), start: None };
    assert_eq!(JsFetchOffset::from_arg(arg).err().unwrap().0, "offset must be number");
    let arg = FetchOffsetArg::Object { offset: None, start: Some(JsPrimitive::Number(1)) };
    assert_eq!(JsFetchOffset::from_arg(arg).err().unwrap().0, "start must be string");
    let arg = FetchOffsetArg::Object { offset: None, start: Some(JsPrimitive::Other) };
    assert_eq!(JsFetchOffset::from_arg(arg).err().unwrap().0, "start must be string");
    assert_eq!(JsFetchOffset::from_arg(FetchOffsetArg::Other).err().unwrap().0, "invalid fetch type");
}

#[test]
fn fetch_log_options() {
    let o = JsFetchLogOption::from_properties(Some(320000000), Some("ReadCommitted".to_string()))
        .ok()
        .unwrap();
    assert_eq!(o.max_bytes, Some(320000000));
    assert_eq!(o.isolation, Some(Isolation::ReadCommitted));
    let o = JsFetchLogOption::from_properties(None, Some("ReadUncommitted".to_string())).ok().unwrap();
    assert_eq!(o.isolation, Some(Isolation::ReadUncommitted));
    let o = JsFetchLogOption::default();
    assert_eq!(o.max_bytes, None);
    assert_eq!(o.isolation, None);
    let e = JsFetchLogOption::from_properties(None, Some("readCommitted".to_string())).err().unwrap();
    assert_eq!(e.0, "invalid isolation param: readCommitted");
}

#[test]
fn consumed_offsets_are_consecutive_per_batch() {
    let out = consumed_records(&set());
    let got: Vec<(Vec<u8>, i64)> = out.into_iter().map(|r| (r.record, r.offset)).collect();
    assert_eq!(got, vec![(b"a".to_vec(), 10), (b"b".to_vec(), 11), (b"c".to_vec(), 20)]);
}

#[test]
fn consumed_offsets_reach_the_top() {
    let s = RawRecordSet {
        batches: vec![RawBatch {
            base_offset: i64::MAX - 1,
            batch_len: 0,
            header: header(),
            records: vec![raw(Some(b"x")), raw(Some(b"y"))],
        }],
    };
    let out = consumed_records(&s);
    assert_eq!(out[1].offset, i64::MAX);
}

#[test]
fn fetched_batches_fill_absent_values() {
    let bs = batches_of(&set());
    assert_eq!(bs.len(), 2);
    assert_eq!(bs[0].base_offset, 10);
    assert_eq!(bs[0].records, vec![b"a".to_vec(), Vec::new(), b"b".to_vec()]);
    let r = JsReplicaLeader::<u8>::fetched_batches(None);
    assert_eq!(r.err().unwrap().0, "fetch failed");
    let r = JsReplicaLeader::<u8>::fetched_batches(Some(set())).ok().unwrap();
    assert_eq!(r[1].records, vec![b"c".to_vec()]);
}

#[test]
fn replica_leader_handle() {
    let mut l: JsReplicaLeader<u16> = JsReplicaLeader::new();
    l.set_leader(3);
    assert_eq!(*l.leader(), 3);
}

#[test]
fn produced_length_counts_bytes() {
    let (bytes, len) = produced_length(&"añb".to_string());
    assert_eq!(len, 4);
    assert_eq!(bytes, "añb".as_bytes().to_vec());
}

#[test]
fn leader_wrapper_becomes_handle() {
    let h = ReplicaLeaderWrapper(11u8).into_handle();
    assert_eq!(*h.leader(), 11);
}
