//! Administering a cluster: the admin handle, finding topics and partitions,
//! and the topic, partition and SPU group specifications read from
//! JavaScript.

use vstd::prelude::*;

use crate::decimal::{decimal, decimal_text};
use crate::error::{ArgError, FluvioErrorJS, must, missing_property_message};
use crate::handle::client_lookup;

verus! {

/// Property of a replica status: the SPU.
pub const SPU_KEY: &'static str = "spu";
/// Property of a replica status: the high watermark.
pub const HW_KEY: &'static str = "hw";
/// Property of a replica status: the log end offset.
pub const LEO_KEY: &'static str = "leo";
/// Property of partition metadata: the partition's name.
pub const NAME_KEY: &'static str = "name";
/// Property of partition metadata: the specification.
pub const SPEC_KEY: &'static str = "spec";
/// Property of partition metadata: the status.
pub const STATUS_KEY: &'static str = "status";
/// Property of a partition specification or status: the leader.
pub const LEADER_KEY: &'static str = "leader";
/// Property of a partition status: its resolution.
pub const RESOLUTION_KEY: &'static str = "resolution";
/// Property of a partition status: the count of replicas in sync.
pub const LSR_KEY: &'static str = "lsr";
/// Property of a partition specification or status: the replicas.
pub const REPLICAS_KEY: &'static str = "replicas";

/// A JavaScript handle to the admin client of a cluster, which may not hold
/// one yet.
pub struct FluvioAdminJS<C> {
    inner: Option<C>,
}

impl<C> FluvioAdminJS<C> {
    /// The admin client this handle holds.
    pub closed spec fn client_slot(&self) -> Option<C> {
        self.inner
    }

    /// A handle with no admin client.
    pub fn new() -> (s: Self)
        ensures
            s.client_slot() is None,
    {
        FluvioAdminJS { inner: None }
    }

    /// The admin client the handle holds, taken out of it.
    pub fn into_client(self) -> (r: Option<C>)
        ensures
            r == self.client_slot(),
    {
        self.inner
    }

    /// Gives the handle its admin client, in place of any it held.
    pub fn set_client(&mut self, client: C)
        ensures
            final(self).client_slot() == Some(client),
    {
        self.inner = Some(client);
    }

    /// The admin client, or the error that the handle holds none.
    pub fn client(&self) -> (r: Result<&C, FluvioErrorJS>)
        ensures
            match client_lookup(self.client_slot()) {
                Ok(c) => r matches Ok(x) && *x == c,
                Err(m) => r matches Err(e) && e.0@ == m,
            },
    {
        match &self.inner {
            Some(c) => Ok(c),
            None => Err(FluvioErrorJS::client_not_found()),
        }
    }
}

/// The position of the first topic named `topic_name`.
pub fn find_topic(topic_names: &Vec<String>, topic_name: &String) -> (r: Option<usize>)
    ensures
        match r {
            Some(i) => i < topic_names@.len() && topic_names@[i as int]@ == topic_name@
                && forall|j: int| 0 <= j < i ==> topic_names@[j]@ != topic_name@,
            None => forall|j: int| 0 <= j < topic_names@.len() ==> topic_names@[j]@ != topic_name@,
        },
{
    let n = topic_names.len();
    for i in 0..n
        invariant
            n == topic_names@.len(),
            forall|j: int| 0 <= j < i ==> topic_names@[j]@ != topic_name@,
    {
        if topic_names[i] == *topic_name {
            return Some(i);
        }
    }
    None
}

/// The position of the last `-` in `s`, or -1 where there is none.
pub open spec fn last_dash(s: Seq<char>) -> int
    decreases s.len(),
{
    if s.len() == 0 {
        -1
    } else if s.last() == '-' {
        s.len() - 1
    } else {
        last_dash(s.drop_last())
    }
}

/// Whether every character of `s` is an ASCII decimal digit.
pub open spec fn all_digits(s: Seq<char>) -> bool {
    forall|i: int| 0 <= i < s.len() ==> 48 <= #[trigger] (s[i] as int) <= 57
}

/// The value of a run of ASCII decimal digits, most significant first.
pub open spec fn digits_value(s: Seq<char>) -> nat
    decreases s.len(),
{
    if s.len() == 0 {
        0
    } else {
        digits_value(s.drop_last()) * 10 + ((s.last() as int - 48) as nat)
    }
}

/// What `u32::from_str` reads from a text: an optional `+`, then one or more
/// ASCII digits whose value fits in 32 bits.
pub open spec fn u32_of(s: Seq<char>) -> Option<u32> {
    let d = if s.len() > 0 && s[0] == '+' {
        s.drop_first()
    } else {
        s
    };
    if d.len() > 0 && all_digits(d) && digits_value(d) <= u32::MAX {
        Some(digits_value(d) as u32)
    } else {
        None
    }
}

/// The topic and partition that a partition name designates: the name splits
/// at its last `-` into the topic before it and the partition number after it,
/// which must read as a `u32`.
pub open spec fn replica_key_of(name: Seq<char>) -> Option<(Seq<char>, u32)> {
    let pos = last_dash(name);
    if pos < 0 {
        None
    } else {
        match u32_of(name.subrange(pos + 1, name.len() as int)) {
            Some(p) => Some((name.subrange(0, pos), p)),
            None => None,
        }
    }
}

/// `ReplicaKey::try_from(String)` of the Fluvio protocol, which splits the name
/// at its last `-` and parses the rest as a `u32`: the topic and the partition
/// that a partition name designates, when it designates one.
#[verifier::external_body]
fn parse_replica_key(name: &String) -> (r: Option<(String, u32)>)
    ensures
        match replica_key_of(name@) {
            Some(k) => r matches Some(p) && p.0@ == k.0 && p.1 == k.1,
            None => r is None,
        },
{
    match ::fluvio::dataplane::record::ReplicaKey::try_from(name.clone()) {
        Ok(key) => Some((key.topic, key.partition)),
        Err(_) => None,
    }
}

/// Whether a partition name designates partition 0 of `topic`.
pub open spec fn names_first_partition(name: Seq<char>, topic: Seq<char>) -> bool {
    replica_key_of(name) == Some((topic, 0u32))
}

/// Whether none of the first `k` names designates partition 0 of `topic`.
pub open spec fn none_before(names: Seq<String>, topic: Seq<char>, k: int) -> bool {
    forall|j: int| 0 <= j < k ==> !names_first_partition(#[trigger] names[j]@, topic)
}

/// Whether every name that a search for partition 0 of `topic` reads, the
/// names up to the first match, designates some partition.
pub open spec fn searched_names_parse(names: Seq<String>, topic: Seq<char>) -> bool {
    forall|i: int|
        0 <= i < names.len() && none_before(names, topic, i) ==> (#[trigger] replica_key_of(
            names[i]@,
        )) is Some
}

/// The message of a search for a partition that found none.
pub open spec fn partition_not_found_message() -> Seq<char> {
    "failed to find partition"@
}

/// The position of the first partition whose name designates partition 0 of
/// `topic`; every name read on the way must designate some partition.
pub fn find_partition(partition_names: &Vec<String>, topic: &String) -> (r: Result<usize, FluvioErrorJS>)
    requires
        searched_names_parse(partition_names@, topic@),
    ensures
        match r {
            Ok(i) => i < partition_names@.len() && names_first_partition(
                partition_names@[i as int]@,
                topic@,
            ) && none_before(partition_names@, topic@, i as int),
            Err(e) => e.0@ == partition_not_found_message() && none_before(
                partition_names@,
                topic@,
                partition_names@.len() as int,
            ),
        },
{
    let n = partition_names.len();
    for i in 0..n
        invariant
            n == partition_names@.len(),
            searched_names_parse(partition_names@, topic@),
            none_before(partition_names@, topic@, i as int),
    {
        if let Some((t, p)) = parse_replica_key(&partition_names[i]) {
            if t == *topic && p == 0 {
                return Ok(i);
            }
        }
    }
    Err(FluvioErrorJS(String::from_str("failed to find partition")))
}

/// The search for partition 0 of `topic`, where a name read on the way may
/// designate no partition: `None` when one of them does not, else the result
/// of `find_partition`.
pub fn try_find_partition(partition_names: &Vec<String>, topic: &String) -> (r: Option<
    Result<usize, FluvioErrorJS>,
>)
    ensures
        r is None <==> !searched_names_parse(partition_names@, topic@),
        r matches Some(res) ==> match res {
            Ok(i) => i < partition_names@.len() && names_first_partition(
                partition_names@[i as int]@,
                topic@,
            ) && none_before(partition_names@, topic@, i as int),
            Err(e) => e.0@ == partition_not_found_message() && none_before(
                partition_names@,
                topic@,
                partition_names@.len() as int,
            ),
        },
{
    let n = partition_names.len();
    let mut i: usize = 0;
    while i < n
        invariant
            n == partition_names@.len(),
            i <= n,
            none_before(partition_names@, topic@, i as int),
            forall|k: int| 0 <= k < i ==> (#[trigger] replica_key_of(partition_names@[k]@)) is Some,
        decreases n - i,
    {
        match parse_replica_key(&partition_names[i]) {
            None => {
                return None;
            },
            Some((t, p)) => {
                if t == *topic && p == 0 {
                    assert(searched_names_parse(partition_names@, topic@)) by {
                        assert forall|k: int|
                            0 <= k < partition_names@.len() && none_before(
                                partition_names@,
                                topic@,
                                k,
                            ) implies (#[trigger] replica_key_of(partition_names@[k]@)) is Some by {
                            if k > i as int {
                                assert(!names_first_partition(partition_names@[i as int]@, topic@));
                            }
                        }
                    }
                    return Some(find_partition(partition_names, topic));
                }
            },
        }
        i = i + 1;
    }
    Some(find_partition(partition_names, topic))
}

/// The state of a partition's leadership.
#[derive(PartialEq, Eq, Structural, Clone, Copy, Debug)]
pub enum PartitionResolution {
    Offline,
    Online,
    LeaderOffline,
    ElectionLeaderFound,
    OutOfStorage,
}

/// A partition resolution handed to JavaScript.
pub struct PartitionResolutionWrapper(pub PartitionResolution);

/// The name JavaScript receives for a resolution.
pub open spec fn resolution_name(r: PartitionResolution) -> Seq<char> {
    match r {
        PartitionResolution::Offline => "Offline"@,
        PartitionResolution::Online => "Online"@,
        PartitionResolution::LeaderOffline => "LeaderOffline"@,
        PartitionResolution::ElectionLeaderFound => "ElectionLeaderFound"@,
        PartitionResolution::OutOfStorage => "OutOfStorage"@,
    }
}

impl PartitionResolutionWrapper {
    /// The resolution's name.
    pub fn to_string(&self) -> (s: String)
        ensures
            s@ == resolution_name(self.0),
    {
        let status = match self.0 {
            PartitionResolution::Offline => "Offline",
            PartitionResolution::Online => "Online",
            PartitionResolution::LeaderOffline => "LeaderOffline",
            PartitionResolution::ElectionLeaderFound => "ElectionLeaderFound",
            PartitionResolution::OutOfStorage => "OutOfStorage",
        };
        String::from_str(status)
    }
}

/// Where one replica of a partition stands.
#[derive(PartialEq, Eq, Structural, Clone, Copy, Debug)]
pub struct ReplicaStatus {
    pub spu: i32,
    pub hw: i64,
    pub leo: i64,
}

/// A replica status handed to JavaScript.
pub struct ReplicaStatusWrapper(pub ReplicaStatus);

/// The status of a partition.
pub struct PartitionStatus {
    pub resolution: PartitionResolution,
    pub leader: ReplicaStatus,
    pub lsr: u32,
    pub replicas: Vec<ReplicaStatus>,
}

/// A partition status handed to JavaScript.
pub struct PartitionStatusWrapper(pub PartitionStatus);

/// A partition status as JavaScript receives it: the resolution by name, and
/// the count of replicas in sync as decimal text, which no JavaScript number
/// type can overflow.
pub struct PartitionStatusJs {
    pub leader: ReplicaStatus,
    pub resolution: String,
    pub lsr: String,
    pub replicas: Vec<ReplicaStatus>,
}

impl PartitionStatusWrapper {
    /// The status as JavaScript receives it.
    pub fn to_js(&self) -> (js: PartitionStatusJs)
        ensures
            js.leader == self.0.leader,
            js.resolution@ == resolution_name(self.0.resolution),
            js.lsr@ == decimal(self.0.lsr as nat),
            js.replicas@ == self.0.replicas@,
    {
        let mut replicas: Vec<ReplicaStatus> = Vec::new();
        let n = self.0.replicas.len();
        for i in 0..n
            invariant
                n == self.0.replicas@.len(),
                replicas@ == self.0.replicas@.take(i as int),
        {
            replicas.push(self.0.replicas[i]);
            assert(replicas@ =~= self.0.replicas@.take(i + 1));
        }
        assert(self.0.replicas@.take(n as int) =~= self.0.replicas@);
        PartitionStatusJs {
            leader: self.0.leader,
            resolution: PartitionResolutionWrapper(self.0.resolution).to_string(),
            lsr: decimal_text(self.0.lsr),
            replicas,
        }
    }
}

/// The replicas of a partition and its leader.
pub struct PartitionSpec {
    pub leader: i32,
    pub replicas: Vec<i32>,
}

/// A partition specification exchanged with JavaScript.
pub struct PartitionSpecWrapper(pub PartitionSpec);

impl PartitionSpecWrapper {
    /// Reads a partition specification from its `leader` and `replicas`
    /// properties, both required.
    pub fn from_properties(leader: Option<i32>, replicas: Option<Vec<i32>>) -> (r: Result<
        PartitionSpecWrapper,
        ArgError,
    >)
        ensures
            match (leader, replicas) {
                (None, _) => r matches Err(e) && e.0@ == missing_property_message(LEADER_KEY@),
                (Some(_), None) => r matches Err(e) && e.0@ == missing_property_message(
                    REPLICAS_KEY@,
                ),
                (Some(l), Some(rs)) => r matches Ok(w) && w.0.leader == l && w.0.replicas == rs,
            },
    {
        let leader = must(LEADER_KEY, leader)?;
        let replicas = must(REPLICAS_KEY, replicas)?;
        Ok(PartitionSpecWrapper(PartitionSpec { leader, replicas }))
    }
}

/// The stored metadata of a partition: its name, specification and status.
pub struct PartitionMetadata {
    pub name: String,
    pub spec: PartitionSpec,
    pub status: PartitionStatus,
}

/// Partition metadata handed to JavaScript.
pub struct PartitionMetadataWrapper(pub PartitionMetadata);

/// The replicas assigned to one partition.
pub struct PartitionMap {
    pub id: u32,
    pub replicas: Vec<i32>,
}

/// A partition assignment read from JavaScript.
pub struct PartitionWrap(pub PartitionMap);

impl PartitionWrap {
    /// Reads an assignment from its `id` and `replicas` properties, both
    /// required.
    pub fn from_properties(id: Option<u32>, replicas: Option<Vec<i32>>) -> (r: Result<
        PartitionWrap,
        ArgError,
    >)
        ensures
            match (id, replicas) {
                (None, _) => r matches Err(e) && e.0@ == missing_property_message("id"@),
                (Some(_), None) => r matches Err(e) && e.0@ == missing_property_message(
                    "replicas"@,
                ),
                (Some(i), Some(rs)) => r matches Ok(w) && w.0.id == i && w.0.replicas == rs,
            },
    {
        let id = must("id", id)?;
        let replicas = must("replicas", replicas)?;
        Ok(PartitionWrap(PartitionMap { id, replicas }))
    }
}

/// How a topic's partitions are placed: assigned replica by replica, or
/// computed by the cluster from counts.
pub enum TopicSpec {
    Assigned(Vec<PartitionMap>),
    Computed { partitions: u32, replication_factor: u32, ignore_rack_assignment: bool },
}

/// A topic specification read from JavaScript.
pub struct TopicSpecWrapper(pub TopicSpec);

/// The ids of some partition assignments.
pub open spec fn assignment_ids(maps: Seq<PartitionWrap>) -> Seq<u32> {
    maps.map_values(|w: PartitionWrap| w.0.id)
}

/// The ids of some partition maps.
pub open spec fn map_ids(maps: Seq<PartitionMap>) -> Seq<u32> {
    maps.map_values(|m: PartitionMap| m.id)
}

impl TopicSpecWrapper {
    /// Reads a topic specification: the partition assignments of `maps` when
    /// it is given; else counts of `partitions` and `replicationFactor`, 1
    /// where absent, and `ignoreRackAssignment`, false where absent.
    pub fn from_properties(
        maps: Option<Vec<PartitionWrap>>,
        replication_factor: Option<u32>,
        partitions: Option<u32>,
        ignore_rack_assignment: Option<bool>,
    ) -> (r: TopicSpecWrapper)
        ensures
            match maps {
                Some(ms) => r.0 matches TopicSpec::Assigned(a) && a@.len() == ms@.len()
                    && map_ids(a@) == assignment_ids(ms@) && forall|i: int|
                    0 <= i < ms@.len() ==> (#[trigger] a@[i]).replicas == ms@[i].0.replicas,
                None => r.0 == TopicSpec::Computed {
                    partitions: match partitions {
                        Some(p) => p,
                        None => 1,
                    },
                    replication_factor: match replication_factor {
                        Some(f) => f,
                        None => 1,
                    },
                    ignore_rack_assignment: match ignore_rack_assignment {
                        Some(b) => b,
                        None => false,
                    },
                },
            },
    {
        match maps {
            Some(ms) => {
                let ghost orig = ms@;
                let mut partition_list: Vec<PartitionMap> = Vec::new();
                for w in it: ms
                    invariant
                        it.seq() == orig,
                        partition_list@.len() == it.index(),
                        forall|k: int|
                            0 <= k < it.index() ==> (#[trigger] partition_list@[k]).id == orig[k].0.id
                                && partition_list@[k].replicas == orig[k].0.replicas,
                {
                    partition_list.push(w.0);
                }
                assert(map_ids(partition_list@) =~= assignment_ids(orig));
                TopicSpecWrapper(TopicSpec::Assigned(partition_list))
            },
            None => {
                let replication_factor = match replication_factor {
                    Some(f) => f,
                    None => 1,
                };
                let partitions = match partitions {
                    Some(p) => p,
                    None => 1,
                };
                let ignore_rack_assignment = match ignore_rack_assignment {
                    Some(b) => b,
                    None => false,
                };
                TopicSpecWrapper(
                    TopicSpec::Computed { partitions, replication_factor, ignore_rack_assignment },
                )
            },
        }
    }
}

/// The replication settings of an SPU.
pub struct ReplicationConfig {
    pub in_sync_replica_min: Option<u16>,
}

/// Replication settings read from JavaScript.
pub struct ReplicationConfigWrapper(pub ReplicationConfig);

/// The message of a parameter that is not what was expected.
pub open spec fn parameter_message() -> Seq<char> {
    "parameter must be json"@
}

impl ReplicationConfigWrapper {
    /// Reads replication settings from a number: the minimum of replicas in
    /// sync, cut to 16 bits.
    pub fn from_value(value: Option<u32>) -> (r: Result<ReplicationConfigWrapper, ArgError>)
        ensures
            match value {
                Some(v) => r matches Ok(w) && w.0.in_sync_replica_min == Some(v as u16),
                None => r matches Err(e) && e.0@ == parameter_message(),
            },
    {
        match value {
            Some(v) => Ok(ReplicationConfigWrapper(ReplicationConfig { in_sync_replica_min: Some(v as u16) })),
            None => Err(ArgError::other("parameter must be json")),
        }
    }
}

/// The storage settings of an SPU.
pub struct StorageConfig {
    pub log_dir: Option<String>,
    pub size: Option<String>,
}

/// Storage settings read from JavaScript.
pub struct StorageConfigWrapper(pub StorageConfig);

impl StorageConfigWrapper {
    /// Reads storage settings from their optional `logDir` and `size`
    /// properties.
    pub fn from_properties(log_dir: Option<String>, size: Option<String>) -> (r: StorageConfigWrapper)
        ensures
            r.0.log_dir == log_dir,
            r.0.size == size,
    {
        StorageConfigWrapper(StorageConfig { log_dir, size })
    }
}

/// An environment variable of an SPU.
pub struct EnvVar {
    pub name: String,
    pub value: String,
}

/// An environment variable read from JavaScript.
pub struct EnvVarWrapper(pub EnvVar);

impl EnvVarWrapper {
    /// Reads an environment variable from its `name` and `value` properties,
    /// both required.
    pub fn from_properties(name: Option<String>, value: Option<String>) -> (r: Result<
        EnvVarWrapper,
        ArgError,
    >)
        ensures
            match (name, value) {
                (None, _) => r matches Err(e) && e.0@ == missing_property_message("name"@),
                (Some(_), None) => r matches Err(e) && e.0@ == missing_property_message(
                    "value"@,
                ),
                (Some(n), Some(v)) => r matches Ok(w) && w.0.name == n && w.0.value == v,
            },
    {
        let name = must("name", name)?;
        let value = must("value", value)?;
        Ok(EnvVarWrapper(EnvVar { name, value }))
    }
}

/// The environment variables of an SPU, read from JavaScript.
pub struct EnvVarVecWrapper(pub Vec<EnvVar>);

impl EnvVarVecWrapper {
    /// The environment variables, in order.
    pub fn from_entries(envs: Vec<EnvVarWrapper>) -> (r: EnvVarVecWrapper)
        ensures
            r.0@.len() == envs@.len(),
            forall|i: int| 0 <= i < envs@.len() ==> #[trigger] r.0@[i] == envs@[i].0,
    {
        let ghost orig = envs@;
        let mut out: Vec<EnvVar> = Vec::new();
        for w in it: envs
            invariant
                it.seq() == orig,
                out@.len() == it.index(),
                forall|k: int| 0 <= k < it.index() ==> #[trigger] out@[k] == orig[k].0,
        {
            out.push(w.0);
        }
        EnvVarVecWrapper(out)
    }
}

/// The configuration of the SPUs of a group.
pub struct SpuConfig {
    pub replication: Option<ReplicationConfig>,
    pub rack: Option<String>,
    pub storage: Option<StorageConfig>,
    pub env: Vec<EnvVar>,
}

/// SPU configuration read from JavaScript.
pub struct SpuConfigWrapper(pub SpuConfig);

impl SpuConfigWrapper {
    /// Reads an SPU configuration: optional `replication`, `rack` and
    /// `storage`, and the required `env`.
    pub fn from_properties(
        replication: Option<ReplicationConfigWrapper>,
        rack: Option<String>,
        storage: Option<StorageConfigWrapper>,
        env: Option<EnvVarVecWrapper>,
    ) -> (r: Result<SpuConfigWrapper, ArgError>)
        ensures
            match env {
                None => r matches Err(e) && e.0@ == missing_property_message("env"@),
                Some(es) => r matches Ok(w) && w.0.env == es.0 && w.0.rack == rack
                    && w.0.replication == match replication {
                    Some(c) => Some(c.0),
                    None => None::<ReplicationConfig>,
                } && w.0.storage == match storage {
                    Some(c) => Some(c.0),
                    None => None::<StorageConfig>,
                },
            },
    {
        let replication = match replication {
            Some(c) => Some(c.0),
            None => None,
        };
        let storage = match storage {
            Some(c) => Some(c.0),
            None => None,
        };
        let env = must("env", env)?;
        Ok(SpuConfigWrapper(SpuConfig { replication, rack, storage, env: env.0 }))
    }
}

/// A group of SPUs that the cluster manages.
pub struct SpuGroupSpec {
    pub replicas: u16,
    pub min_id: i32,
    pub spu_config: SpuConfig,
}

/// An SPU group specification read from JavaScript.
pub struct SpuGroupSpecWrapper(pub SpuGroupSpec);

impl SpuGroupSpecWrapper {
    /// Reads an SPU group from its `replicas` (cut to 16 bits), `minId` and
    /// `spuConfig` properties, all required.
    pub fn from_properties(
        replicas: Option<u32>,
        min_id: Option<i32>,
        spu_config: Option<SpuConfigWrapper>,
    ) -> (r: Result<SpuGroupSpecWrapper, ArgError>)
        ensures
            match (replicas, min_id, spu_config) {
                (None, _, _) => r matches Err(e) && e.0@ == missing_property_message("replicas"@),
                (Some(_), None, _) => r matches Err(e) && e.0@ == missing_property_message(
                    "minId"@,
                ),
                (Some(_), Some(_), None) => r matches Err(e) && e.0@ == missing_property_message(
                    "spuConfig"@,
                ),
                (Some(n), Some(m), Some(c)) => r matches Ok(w) && w.0.replicas == n as u16
                    && w.0.min_id == m && w.0.spu_config == c.0,
            },
    {
        let replicas = must("replicas", replicas)? as u16;
        let min_id = must("minId", min_id)?;
        let spu_config = must("spuConfig", spu_config)?;
        Ok(SpuGroupSpecWrapper(SpuGroupSpec { replicas, min_id, spu_config: spu_config.0 }))
    }
}

} // verus!
