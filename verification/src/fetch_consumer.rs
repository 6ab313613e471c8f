//! A consumer handle that keeps its topic and partition and fetches record
//! sets of that partition, which it passes on whole.

use vstd::prelude::*;

use crate::consumer::response::AbortedTransaction;
use crate::error::FluvioErrorJS;
use crate::handle::client_lookup;
use crate::records::{BatchHeaderJs, RawBatch, RawRecord, RawRecordSet, header_js, header_shown, text_of, utf8_value};

pub use crate::consumer::OffsetWrapper;

verus! {

/// The name of the JavaScript event that carries each record set.
pub const EVENT_EMITTER_NAME: &'static str = "data";

/// Property of a fetched partition: its index.
pub const PARTITION_INDEX_KEY: &'static str = "partitionIndex";
/// Property of a fetched partition: its high watermark.
pub const HIGH_WATERMARK_KEY: &'static str = "highWatermark";
/// Property of a fetched partition: its last stable offset.
pub const LAST_STABLE_OFFSET_KEY: &'static str = "lastStableOffset";
/// Property of a fetched partition: the offset of its oldest record.
pub const LOG_START_OFFSET_KEY: &'static str = "logStartOffset";
/// Property of a fetched partition: its aborted transactions.
pub const ABORTED_KEY: &'static str = "aborted";
/// Property of an aborted transaction: its first offset.
pub const FIRST_OFFSET_KEY: &'static str = "firstOffset";

/// A shared client with the topic and partition that a consumer handle for it
/// will read.
pub struct PartitionConsumerWrapper<C> {
    pub client: C,
    pub topic: String,
    pub partition: i32,
}

impl<C> PartitionConsumerWrapper<C> {
    /// Bundles a client with a topic and a partition.
    pub fn new(client: C, topic: String, partition: i32) -> (w: Self)
        ensures
            w.client == client,
            w.topic@ == topic@,
            w.partition == partition,
    {
        PartitionConsumerWrapper { client, topic, partition }
    }
}

/// A JavaScript consumer handle: a shared client, and the topic and partition
/// to read, each of which may be missing.
pub struct PartitionConsumerJS<C> {
    inner: Option<C>,
    topic: Option<String>,
    partition: Option<i32>,
}

impl<C> PartitionConsumerJS<C> {
    /// The client this handle holds.
    pub closed spec fn client_slot(&self) -> Option<C> {
        self.inner
    }

    /// The topic this handle was given.
    pub closed spec fn topic_slot(&self) -> Option<Seq<char>> {
        match self.topic {
            Some(t) => Some(t@),
            None => None,
        }
    }

    /// The partition this handle was given.
    pub closed spec fn partition_slot(&self) -> Option<i32> {
        self.partition
    }

    /// A handle with no client, topic or partition.
    pub fn new() -> (s: Self)
        ensures
            s.client_slot() is None,
            s.topic_slot() is None,
            s.partition_slot() is None,
    {
        PartitionConsumerJS { inner: None, topic: None, partition: None }
    }

    /// The handle JavaScript receives for a bundled client, topic and partition.
    pub fn from_wrapper(w: PartitionConsumerWrapper<C>) -> (s: Self)
        ensures
            s.client_slot() == Some(w.client),
            s.topic_slot() == Some(w.topic@),
            s.partition_slot() == Some(w.partition),
    {
        let mut s = PartitionConsumerJS::new();
        s.set_client(w.client);
        s.set_topic(w.topic);
        s.set_partition(w.partition);
        s
    }

    /// Sets the client, keeping the rest.
    pub fn set_client(&mut self, client: C)
        ensures
            final(self).client_slot() == Some(client),
            final(self).topic_slot() == old(self).topic_slot(),
            final(self).partition_slot() == old(self).partition_slot(),
    {
        self.inner = Some(client);
    }

    /// Sets the topic, keeping the rest.
    pub fn set_topic(&mut self, topic: String)
        ensures
            final(self).topic_slot() == Some(topic@),
            final(self).client_slot() == old(self).client_slot(),
            final(self).partition_slot() == old(self).partition_slot(),
    {
        self.topic = Some(topic);
    }

    /// Sets the partition, keeping the rest.
    pub fn set_partition(&mut self, partition: i32)
        ensures
            final(self).partition_slot() == Some(partition),
            final(self).client_slot() == old(self).client_slot(),
            final(self).topic_slot() == old(self).topic_slot(),
    {
        self.partition = Some(partition);
    }

    /// The client, or the error that the handle holds none.
    pub fn client(&self) -> (r: Result<&C, FluvioErrorJS>)
        ensures
            match client_lookup(self.client_slot()) {
                Ok(c) => r matches Ok(x) && *x == c,
                Err(m) => r matches Err(e) && e.0@ == m,
            },
    {
        match &self.inner {
            Some(c) => Ok(c),
            None => Err(FluvioErrorJS::client_not_found()),
        }
    }

    /// The topic and partition to read: those given, or the default topic and
    /// partition in place of a missing one.
    pub fn target(&self) -> (r: (String, i32))
        ensures
            r.0@ == match self.topic_slot() {
                Some(t) => t,
                None => crate::DEFAULT_TOPIC@,
            },
            r.1 == match self.partition_slot() {
                Some(p) => p,
                None => crate::DEFAULT_PARTITION,
            },
    {
        let topic = match &self.topic {
            Some(t) => t.clone(),
            None => String::from_str(crate::DEFAULT_TOPIC),
        };
        let partition = match self.partition {
            Some(p) => p,
            None => crate::DEFAULT_PARTITION,
        };
        (topic, partition)
    }
}

/// One partition of a fetch response, with record values that may be absent.
pub struct FetchablePartitionResponse {
    pub partition_index: i32,
    pub error_code: i16,
    pub high_watermark: i64,
    pub last_stable_offset: i64,
    pub log_start_offset: i64,
    pub aborted: Option<Vec<AbortedTransaction>>,
    pub records: RawRecordSet,
}

/// A fetched partition handed to JavaScript.
pub struct FetchablePartitionResponseWrapper(pub FetchablePartitionResponse);

/// A record set handed to JavaScript.
pub struct RecordSetWrapper(pub RawRecordSet);

/// A record as JavaScript receives it: its header count, an empty key, and
/// its value as text, empty when the value is absent or not valid UTF-8.
pub struct RecordFieldsJs {
    pub headers: i64,
    pub key: Vec<u8>,
    pub value: String,
}

/// A batch as JavaScript receives it.
pub struct BatchJs {
    pub base_offset: i64,
    pub batch_length: i32,
    pub header: BatchHeaderJs,
    pub records: Vec<RecordFieldsJs>,
}

/// A record set as JavaScript receives it.
pub struct RecordSetJs {
    pub batches: Vec<BatchJs>,
}

/// A fetched partition as JavaScript receives it.
pub struct FetchablePartitionResponseJs {
    pub partition_index: i32,
    pub high_watermark: i64,
    pub last_stable_offset: i64,
    pub log_start_offset: i64,
    pub aborted: Option<Vec<AbortedTransaction>>,
    pub records: RecordSetJs,
}

/// The text JavaScript receives for a record value.
pub open spec fn value_text(value: Option<Seq<u8>>) -> Seq<char> {
    match value {
        Some(v) => match utf8_value(v) {
            Some(t) => t,
            None => Seq::empty(),
        },
        None => Seq::empty(),
    }
}

/// Whether `js` shows the record `r`.
pub open spec fn record_shown(js: RecordFieldsJs, r: RawRecord) -> bool {
    &&& js.headers == r.headers
    &&& js.key@ == Seq::<u8>::empty()
    &&& js.value@ == value_text(
        match r.value {
            Some(v) => Some(v@),
            None => None,
        },
    )
}

/// Whether `js` shows the batch `b`.
pub open spec fn batch_shown(js: BatchJs, b: RawBatch) -> bool {
    &&& js.base_offset == b.base_offset
    &&& js.batch_length == b.batch_len
    &&& header_shown(js.header, b.header)
    &&& js.records@.len() == b.records@.len()
    &&& forall|j: int|
        0 <= j < b.records@.len() ==> #[trigger] record_shown(js.records@[j], b.records@[j])
}

/// Whether `js` shows the record set `s`.
pub open spec fn record_set_shown(js: RecordSetJs, s: RawRecordSet) -> bool {
    &&& js.batches@.len() == s.batches@.len()
    &&& forall|i: int|
        0 <= i < s.batches@.len() ==> #[trigger] batch_shown(js.batches@[i], s.batches@[i])
}

/// The text JavaScript receives for a record value.
fn value_js(value: &Option<Vec<u8>>) -> (s: String)
    ensures
        s@ == value_text(
            match *value {
                Some(v) => Some(v@),
                None => None,
            },
        ),
{
    match value {
        Some(v) => match text_of(v) {
            Some(t) => t,
            None => String::new(),
        },
        None => String::new(),
    }
}

/// The batch as JavaScript receives it.
fn batch_js(b: &RawBatch) -> (js: BatchJs)
    ensures
        batch_shown(js, *b),
{
    let mut records: Vec<RecordFieldsJs> = Vec::new();
    let n = b.records.len();
    for j in 0..n
        invariant
            n == b.records@.len(),
            records@.len() == j,
            forall|k: int| 0 <= k < j ==> #[trigger] record_shown(records@[k], b.records@[k]),
    {
        let r = &b.records[j];
        records.push(RecordFieldsJs { headers: r.headers, key: Vec::new(), value: value_js(&r.value) });
    }
    BatchJs {
        base_offset: b.base_offset,
        batch_length: b.batch_len,
        header: header_js(&b.header),
        records,
    }
}

impl RecordSetWrapper {
    /// The record set as JavaScript receives it, batch by batch.
    pub fn to_js(&self) -> (js: RecordSetJs)
        ensures
            record_set_shown(js, self.0),
    {
        record_set_js(&self.0)
    }
}

impl FetchablePartitionResponseWrapper {
    /// The fetched partition as JavaScript receives it: its index and offsets,
    /// the aborted transactions as they are, the records shown. The error code
    /// is not handed on.
    pub fn to_js(&self) -> (js: FetchablePartitionResponseJs)
        ensures
            js.partition_index == self.0.partition_index,
            js.high_watermark == self.0.high_watermark,
            js.last_stable_offset == self.0.last_stable_offset,
            js.log_start_offset == self.0.log_start_offset,
            match self.0.aborted {
                Some(ts) => js.aborted matches Some(us) && us@ == ts@,
                None => js.aborted is None,
            },
            record_set_shown(js.records, self.0.records),
    {
        let p = &self.0;
        let aborted = match &p.aborted {
            Some(ts) => {
                let mut us: Vec<AbortedTransaction> = Vec::new();
                let n = ts.len();
                for i in 0..n
                    invariant
                        n == ts@.len(),
                        us@ == ts@.take(i as int),
                {
                    us.push(ts[i]);
                    assert(us@ =~= ts@.take(i + 1));
                }
                assert(ts@.take(n as int) =~= ts@);
                Some(us)
            },
            None => None,
        };
        FetchablePartitionResponseJs {
            partition_index: p.partition_index,
            high_watermark: p.high_watermark,
            last_stable_offset: p.last_stable_offset,
            log_start_offset: p.log_start_offset,
            aborted,
            records: record_set_js(&p.records),
        }
    }
}

/// The record set `s` as JavaScript receives it.
fn record_set_js(s: &RawRecordSet) -> (js: RecordSetJs)
    ensures
        record_set_shown(js, *s),
{
    let mut batches: Vec<BatchJs> = Vec::new();
    let n = s.batches.len();
    for i in 0..n
        invariant
            n == s.batches@.len(),
            batches@.len() == i,
            forall|k: int| 0 <= k < i ==> #[trigger] batch_shown(batches@[k], s.batches@[k]),
    {
        batches.push(batch_js(&s.batches[i]));
    }
    RecordSetJs { batches }
}

} // verus!
