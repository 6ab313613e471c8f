use fluvio_client_node::admin::{
    find_partition, find_topic, try_find_partition, EnvVarVecWrapper, EnvVarWrapper,
    FluvioAdminJS, PartitionResolution, PartitionResolutionWrapper, PartitionSpecWrapper,
    PartitionStatus, PartitionStatusWrapper, PartitionWrap, ReplicaStatus,
    ReplicationConfigWrapper, SpuConfigWrapper, SpuGroupSpecWrapper, StorageConfigWrapper,
    TopicSpec, TopicSpecWrapper,
};
use fluvio_client_node::decimal::decimal_text;
use fluvio_client_node::CLIENT_NOT_FOUND_ERROR_MSG;

fn names(v: &[&str]) -> Vec<String> {
    v.iter().map(|s| s.to_string()).collect()
}

#[test]
fn admin_handle_without_client_reports_it() {
    let admin: FluvioAdminJS<u32> = FluvioAdminJS::new();
    let err = admin.client().err().unwrap();
    assert_eq!(err.0, CLIENT_NOT_FOUND_ERROR_MSG);
}

#[test]
fn admin_handle_hands_out_last_client_set() {
    let mut admin: FluvioAdminJS<u32> = FluvioAdminJS::new();
    admin.set_client(7);
    assert_eq!(*admin.client().ok().unwrap(), 7);
    admin.set_client(9);
    assert_eq!(*admin.client().ok().unwrap(), 9);
}

#[test]
fn find_topic_returns_first_match() {
    let topics = names(&["a", "b", "b"]);
    assert_eq!(find_topic(&topics, &"b".to_string()), Some(1));
    assert_eq!(find_topic(&topics, &"c".to_string()), None);
    assert_eq!(find_topic(&Vec::new(), &"a".to_string()), None);
}

#[test]
fn find_partition_picks_partition_zero_of_topic() {
    let parts = names(&["other-0", "my-topic-1", "my-topic-0", "my-topic-0"]);
    assert_eq!(find_partition(&parts, &"my-topic".to_string()).ok(), Some(2));
}

#[test]
fn find_partition_reports_missing_partition() {
    let parts = names(&["a-1", "b-0"]);
    let err = find_partition(&parts, &"c".to_string()).err().unwrap();
    assert_eq!(err.0, "failed to find partition");
}

#[test]
fn try_find_partition_stops_at_unreadable_name() {
    let parts = names(&["nodash", "t-0"]);
    assert!(try_find_partition(&parts, &"t".to_string()).is_none());
    let parts = names(&["t-", "t-0"]);
    assert!(try_find_partition(&parts, &"t".to_string()).is_none());
    let parts = names(&["t-x"]);
    assert!(try_find_partition(&parts, &"t".to_string()).is_none());
}

#[test]
fn try_find_partition_ignores_names_after_match() {
    let parts = names(&["t-0", "nodash"]);
    assert_eq!(try_find_partition(&parts, &"t".to_string()).unwrap().ok(), Some(0));
    let parts = names(&["t-00"]);
    assert_eq!(try_find_partition(&parts, &"t".to_string()).unwrap().ok(), Some(0));
}

#[test]
fn partition_number_reads_as_u32() {
    let parts = names(&["t-+0"]);
    assert_eq!(try_find_partition(&parts, &"t".to_string()).unwrap().ok(), Some(0));
    let parts = names(&["my-t--0", "my-t-0"]);
    assert_eq!(try_find_partition(&parts, &"my-t-".to_string()).unwrap().ok(), Some(0));
    let parts = names(&["t-4294967296", "t-0"]);
    assert!(try_find_partition(&parts, &"t".to_string()).is_none());
    let parts = names(&["t-4294967295", "t-0"]);
    assert_eq!(try_find_partition(&parts, &"t".to_string()).unwrap().ok(), Some(1));
    let parts = names(&["t--0"]);
    assert!(try_find_partition(&parts, &"t".to_string()).unwrap().is_err());
    let parts = names(&["t-+"]);
    assert!(try_find_partition(&parts, &"t".to_string()).is_none());
}

#[test]
fn resolution_names() {
    assert_eq!(PartitionResolutionWrapper(PartitionResolution::Offline).to_string(), "Offline");
    assert_eq!(PartitionResolutionWrapper(PartitionResolution::Online).to_string(), "Online");
    assert_eq!(
        PartitionResolutionWrapper(PartitionResolution::LeaderOffline).to_string(),
        "LeaderOffline"
    );
    assert_eq!(
        PartitionResolutionWrapper(PartitionResolution::ElectionLeaderFound).to_string(),
        "ElectionLeaderFound"
    );
    assert_eq!(
        PartitionResolutionWrapper(PartitionResolution::OutOfStorage).to_string(),
        "OutOfStorage"
    );
}

#[test]
fn decimal_text_values() {
    assert_eq!(decimal_text(0), "0");
    assert_eq!(decimal_text(7), "7");
    assert_eq!(decimal_text(10), "10");
    assert_eq!(decimal_text(305), "305");
    assert_eq!(decimal_text(u32::MAX), "4294967295");
}

#[test]
fn partition_status_shown_to_js() {
    let leader = ReplicaStatus { spu: 5001, hw: 10, leo: 12 };
    let other = ReplicaStatus { spu: 5002, hw: 9, leo: 12 };
    let status = PartitionStatusWrapper(PartitionStatus {
        resolution: PartitionResolution::Online,
        leader,
        lsr: 4000000000,
        replicas: vec![other],
    });
    let js = status.to_js();
    assert_eq!(js.leader, leader);
    assert_eq!(js.resolution, "Online");
    assert_eq!(js.lsr, "4000000000");
    assert_eq!(js.replicas, vec![other]);
}

#[test]
fn partition_spec_requires_leader_then_replicas() {
    let e = PartitionSpecWrapper::from_properties(None, None).err().unwrap();
    assert_eq!(e.0, "missing leader property");
    let e = PartitionSpecWrapper::from_properties(Some(1), None).err().unwrap();
    assert_eq!(e.0, "missing replicas property");
    let w = PartitionSpecWrapper::from_properties(Some(1), Some(vec![1, 2])).ok().unwrap();
    assert_eq!(w.0.leader, 1);
    assert_eq!(w.0.replicas, vec![1, 2]);
}

#[test]
fn topic_spec_computed_defaults() {
    let w = TopicSpecWrapper::from_properties(None, None, None, None);
    match w.0 {
        TopicSpec::Computed { partitions, replication_factor, ignore_rack_assignment } => {
            assert_eq!(partitions, 1);
            assert_eq!(replication_factor, 1);
            assert!(!ignore_rack_assignment);
        }
        _ => panic!("expected a computed topic"),
    }
    let w = TopicSpecWrapper::from_properties(None, Some(3), Some(6), Some(true));
    match w.0 {
        TopicSpec::Computed { partitions, replication_factor, ignore_rack_assignment } => {
            assert_eq!(partitions, 6);
            assert_eq!(replication_factor, 3);
            assert!(ignore_rack_assignment);
        }
        _ => panic!("expected a computed topic"),
    }
}

#[test]
fn topic_spec_assigned_keeps_maps_in_order() {
    let maps = vec![
        PartitionWrap::from_properties(Some(0), Some(vec![5001, 5002])).ok().unwrap(),
        PartitionWrap::from_properties(Some(1), Some(vec![5002])).ok().unwrap(),
    ];
    let w = TopicSpecWrapper::from_properties(Some(maps), Some(9), None, None);
    match w.0 {
        TopicSpec::Assigned(list) => {
            assert_eq!(list.len(), 2);
            assert_eq!(list[0].id, 0);
            assert_eq!(list[0].replicas, vec![5001, 5002]);
            assert_eq!(list[1].id, 1);
            assert_eq!(list[1].replicas, vec![5002]);
        }
        _ => panic!("expected an assigned topic"),
    }
}

#[test]
fn partition_map_requires_id() {
    let e = PartitionWrap::from_properties(None, Some(vec![1])).err().unwrap();
    assert_eq!(e.0, "missing id property");
}

#[test]
fn replication_config_truncates_to_16_bits() {
    let w = ReplicationConfigWrapper::from_value(Some(65537)).ok().unwrap();
    assert_eq!(w.0.in_sync_replica_min, Some(1));
    let e = ReplicationConfigWrapper::from_value(None).err().unwrap();
    assert_eq!(e.0, "parameter must be json");
}

#[test]
fn spu_group_spec_reads_all_parts() {
    let env = EnvVarVecWrapper::from_entries(vec![
        EnvVarWrapper::from_properties(Some("A".to_string()), Some("1".to_string())).ok().unwrap(),
        EnvVarWrapper::from_properties(Some("B".to_string()), Some("2".to_string())).ok().unwrap(),
    ]);
    assert_eq!(env.0[1].name, "B");
    let storage = StorageConfigWrapper::from_properties(Some("/tmp".to_string()), None);
    let config = SpuConfigWrapper::from_properties(
        ReplicationConfigWrapper::from_value(Some(2)).ok(),
        Some("r1".to_string()),
        Some(storage),
        Some(env),
    )
    .ok()
    .unwrap();
    let spec = SpuGroupSpecWrapper::from_properties(Some(70000), Some(5000), Some(config))
        .ok()
        .unwrap();
    assert_eq!(spec.0.replicas, 70000u32 as u16);
    assert_eq!(spec.0.min_id, 5000);
    assert_eq!(spec.0.spu_config.rack.as_deref(), Some("r1"));
    assert_eq!(spec.0.spu_config.env.len(), 2);
    assert_eq!(spec.0.spu_config.env[0].value, "1");
    assert_eq!(
        spec.0.spu_config.storage.as_ref().unwrap().log_dir.as_deref(),
        Some("/tmp")
    );
    assert_eq!(spec.0.spu_config.replication.as_ref().unwrap().in_sync_replica_min, Some(2));
}

#[test]
fn spu_group_spec_missing_properties() {
    let e = SpuGroupSpecWrapper::from_properties(None, None, None).err().unwrap();
    assert_eq!(e.0, "missing replicas property");
    let e = SpuGroupSpecWrapper::from_properties(Some(1), None, None).err().unwrap();
    assert_eq!(e.0, "missing minId property");
    let e = SpuGroupSpecWrapper::from_properties(Some(1), Some(1), None).err().unwrap();
    assert_eq!(e.0, "missing spuConfig property");
    let e = SpuConfigWrapper::from_properties(None, None, None, None).err().unwrap();
    assert_eq!(e.0, "missing env property");
    let e = EnvVarWrapper::from_properties(Some("A".to_string()), None).err().unwrap();
    assert_eq!(e.0, "missing value property");
}
