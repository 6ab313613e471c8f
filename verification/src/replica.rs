//! Reading from and writing to the leader replica of a partition directly:
//! fetch offsets and options as JavaScript gives them, and the records and
//! batches handed back.

use vstd::prelude::*;

use crate::error::{ArgError, FluvioErrorJS};
use crate::records::{RawBatch, RawRecord, RawRecordSet};
use crate::text::{copy_bytes, is_text, utf8_bytes};

verus! {

/// The name of the JavaScript event that carries each consumed record.
pub const CONSUME_EVENT_NAME: &'static str = "data";
/// Property of a consumed record: its offset.
pub const RECORD_OFFSET_KEY: &'static str = "offset";
/// Property of a consumed record: its bytes.
pub const RECORD_KEY: &'static str = "record";
/// Property of a fetched batch: the offset of its first record.
pub const BATCH_BASE_OFFSET_KEY: &'static str = "base_offset";
/// Property of a fetched batch: its records.
pub const BATCH_RECORDS_KEY: &'static str = "records";

/// Where a fetch from a replica starts: an absolute offset, or the oldest or
/// newest record, optionally moved by some records.
#[derive(PartialEq, Eq, Structural, Clone, Copy, Debug)]
pub enum FetchOffset {
    Offset(i64),
    Earliest(Option<i64>),
    Latest(Option<i64>),
}

/// A JavaScript value where a number or a string is expected.
pub enum JsPrimitive {
    Number(i64),
    Text(String),
    Other,
}

/// A fetch offset as JavaScript gives it: a number, a string, an object with
/// optional `offset` and `start` properties, or something else.
pub enum FetchOffsetArg {
    Number(i64),
    Text(String),
    Object { offset: Option<JsPrimitive>, start: Option<JsPrimitive> },
    Other,
}

/// A fetch offset read from JavaScript.
#[derive(Debug)]
pub struct JsFetchOffset(pub FetchOffset);

/// The origin that a `start` text names, moved by `offset`.
pub open spec fn origin_named(start: Seq<char>, offset: Option<i64>) -> Option<FetchOffset> {
    if start == "earliest"@ {
        Some(FetchOffset::Earliest(offset))
    } else if start == "latest"@ {
        Some(FetchOffset::Latest(offset))
    } else {
        None
    }
}

/// The message of a start text that names no origin.
pub open spec fn invalid_fetch_offset_message(start: Seq<char>) -> Seq<char> {
    "invalid fetch offset: "@ + start + ", valid values are: earliest/latest"@
}

/// The fetch offset that a JavaScript argument describes, or the message of
/// the error.
pub open spec fn fetch_offset_described(arg: FetchOffsetArg) -> Result<FetchOffset, Seq<char>> {
    match arg {
        FetchOffsetArg::Number(n) => Ok(FetchOffset::Offset(n)),
        FetchOffsetArg::Text(t) => match origin_named(t@, None) {
            Some(o) => Ok(o),
            None => Err(invalid_fetch_offset_message(t@)),
        },
        FetchOffsetArg::Object { offset, start } => {
            let moved = match offset {
                None => Ok(0i64),
                Some(JsPrimitive::Number(n)) => Ok(n),
                Some(_) => Err("offset must be number"@),
            };
            match moved {
                Err(m) => Err(m),
                Ok(n) => match start {
                    None => Ok(FetchOffset::Offset(n)),
                    Some(JsPrimitive::Text(t)) => match origin_named(t@, Some(n)) {
                        Some(o) => Ok(o),
                        None => Err(invalid_fetch_offset_message(t@)),
                    },
                    Some(_) => Err("start must be string"@),
                },
            }
        },
        FetchOffsetArg::Other => Err("invalid fetch type"@),
    }
}

impl JsFetchOffset {
    /// Reads a fetch offset: a number is an absolute offset; "earliest" and
    /// "latest" name an origin; an object gives an `offset` (0 when absent)
    /// that is absolute, or relative to the origin its `start` names.
    pub fn from_arg(arg: FetchOffsetArg) -> (r: Result<JsFetchOffset, ArgError>)
        ensures
            match fetch_offset_described(arg) {
                Ok(o) => r matches Ok(f) && f.0 == o,
                Err(m) => r matches Err(e) && e.0@ == m,
            },
    {
        match arg {
            FetchOffsetArg::Number(n) => Ok(JsFetchOffset(FetchOffset::Offset(n))),
            FetchOffsetArg::Text(t) => {
                if is_text(&t, "earliest") {
                    Ok(JsFetchOffset(FetchOffset::Earliest(None)))
                } else if is_text(&t, "latest") {
                    Ok(JsFetchOffset(FetchOffset::Latest(None)))
                } else {
                    Err(
                        ArgError::framed(
                            "invalid fetch offset: ",
                            t.as_str(),
                            ", valid values are: earliest/latest",
                        ),
                    )
                }
            },
            FetchOffsetArg::Object { offset, start } => {
                let mut moved: i64 = 0;
                match offset {
                    None => {},
                    Some(JsPrimitive::Number(n)) => {
                        moved = n;
                    },
                    Some(_) => {
                        return Err(ArgError::other("offset must be number"));
                    },
                }
                match start {
                    None => Ok(JsFetchOffset(FetchOffset::Offset(moved))),
                    Some(JsPrimitive::Text(t)) => {
                        if is_text(&t, "earliest") {
                            Ok(JsFetchOffset(FetchOffset::Earliest(Some(moved))))
                        } else if is_text(&t, "latest") {
                            Ok(JsFetchOffset(FetchOffset::Latest(Some(moved))))
                        } else {
                            Err(
                                ArgError::framed(
                                    "invalid fetch offset: ",
                                    t.as_str(),
                                    ", valid values are: earliest/latest",
                                ),
                            )
                        }
                    },
                    Some(_) => Err(ArgError::other("start must be string")),
                }
            },
            FetchOffsetArg::Other => Err(ArgError::other("invalid fetch type")),
        }
    }
}

/// An object's `offset` is carried unchanged into the origin its `start`
/// names: "latest" gives the newest record moved by exactly that offset,
/// "earliest" the oldest one moved by it, no `start` the offset itself as an
/// absolute offset; whatever a start text gives, it holds that same offset. A
/// missing `offset` counts as 0, and a bare number is an absolute offset.
pub proof fn lemma_object_offset_carried(n: i64, start: String)
    ensures
        start@ == "latest"@ ==> (fetch_offset_described(
            (FetchOffsetArg::Object {
                offset: Some(JsPrimitive::Number(n)),
                start: Some(JsPrimitive::Text(start)),
            }),
        ) matches Ok(o) && o == FetchOffset::Latest(Some(n))),
        start@ == "earliest"@ ==> (fetch_offset_described(
            (FetchOffsetArg::Object {
                offset: Some(JsPrimitive::Number(n)),
                start: Some(JsPrimitive::Text(start)),
            }),
        ) matches Ok(o) && o == FetchOffset::Earliest(Some(n))),
        fetch_offset_described(
            (FetchOffsetArg::Object {
                offset: Some(JsPrimitive::Number(n)),
                start: Some(JsPrimitive::Text(start)),
            }),
        ) matches Ok(o) ==> (o == FetchOffset::Earliest(Some(n)) || o == FetchOffset::Latest(
            Some(n),
        )),
        fetch_offset_described(
            (FetchOffsetArg::Object { offset: Some(JsPrimitive::Number(n)), start: None }),
        ) matches Ok(o) && o == FetchOffset::Offset(n),
        start@ == "latest"@ ==> (fetch_offset_described(
            (FetchOffsetArg::Object { offset: None, start: Some(JsPrimitive::Text(start)) }),
        ) matches Ok(o) && o == FetchOffset::Latest(Some(0))),
        fetch_offset_described(FetchOffsetArg::Number(n)) matches Ok(o) && o == FetchOffset::Offset(
            n,
        ),
{
    reveal_strlit("latest");
    reveal_strlit("earliest");
    assert("latest"@.len() != "earliest"@.len());
}

/// Whether a fetch sees records of transactions that were not committed.
#[derive(PartialEq, Eq, Structural, Clone, Copy, Debug)]
pub enum Isolation {
    ReadUncommitted,
    ReadCommitted,
}

/// What JavaScript changes of the default fetch options: the byte cap and
/// the isolation, each where it was given.
pub struct JsFetchLogOption {
    pub max_bytes: Option<i32>,
    pub isolation: Option<Isolation>,
}

impl Default for JsFetchLogOption {
    /// No change to the default fetch options.
    fn default() -> (r: Self)
        ensures
            r.max_bytes is None,
            r.isolation is None,
    {
        JsFetchLogOption { max_bytes: None, isolation: None }
    }
}

/// The message of an isolation that is neither of the two known ones.
pub open spec fn invalid_isolation_message(isolation: Seq<char>) -> Seq<char> {
    "invalid isolation param: "@ + isolation
}

impl JsFetchLogOption {
    /// Reads fetch options from their `maxBytes` and `isolation` properties.
    pub fn from_properties(max_bytes: Option<i32>, isolation: Option<String>) -> (r: Result<
        JsFetchLogOption,
        ArgError,
    >)
        ensures
            match isolation {
                None => r matches Ok(o) && o.max_bytes == max_bytes && o.isolation is None,
                Some(i) => if i@ == "ReadUncommitted"@ {
                    r matches Ok(o) && o.max_bytes == max_bytes && o.isolation == Some(
                        Isolation::ReadUncommitted,
                    )
                } else if i@ == "ReadCommitted"@ {
                    r matches Ok(o) && o.max_bytes == max_bytes && o.isolation == Some(
                        Isolation::ReadCommitted,
                    )
                } else {
                    r matches Err(e) && e.0@ == invalid_isolation_message(i@)
                },
            },
    {
        let mut option = JsFetchLogOption::default();
        option.max_bytes = max_bytes;
        match isolation {
            None => {},
            Some(i) => {
                if is_text(&i, "ReadUncommitted") {
                    option.isolation = Some(Isolation::ReadUncommitted);
                } else if is_text(&i, "ReadCommitted") {
                    option.isolation = Some(Isolation::ReadCommitted);
                } else {
                    return Err(ArgError::prefixed("invalid isolation param: ", i.as_str()));
                }
            },
        }
        Ok(option)
    }
}

/// A consumed record passed back to JavaScript, with its offset.
pub struct JsRecord {
    pub record: Vec<u8>,
    pub offset: i64,
}

/// A fetched batch passed back to JavaScript: its base offset and the bytes
/// of its records.
pub struct JsBatch {
    pub base_offset: i64,
    pub records: Vec<Vec<u8>>,
}

/// A JavaScript handle to the leader replica of a partition.
pub struct JsReplicaLeader<L> {
    inner: Option<L>,
}

impl<L> JsReplicaLeader<L> {
    /// The leader this handle holds.
    pub closed spec fn leader_slot(&self) -> Option<L> {
        self.inner
    }

    /// A handle with no leader.
    pub fn new() -> (s: Self)
        ensures
            s.leader_slot() is None,
    {
        JsReplicaLeader { inner: None }
    }

    /// Gives the handle its leader, in place of any it held.
    pub fn set_leader(&mut self, leader: L)
        ensures
            final(self).leader_slot() == Some(leader),
    {
        self.inner = Some(leader);
    }

    /// The leader; the handle must hold one.
    pub fn leader(&self) -> (r: &L)
        requires
            self.leader_slot() is Some,
        ensures
            Some(*r) == self.leader_slot(),
    {
        self.inner.as_ref().unwrap()
    }
}

/// A leader replica on its way to JavaScript.
pub struct ReplicaLeaderWrapper<L>(pub L);

impl<L> ReplicaLeaderWrapper<L> {
    /// The JavaScript handle that holds the leader.
    pub fn into_handle(self) -> (h: JsReplicaLeader<L>)
        ensures
            h.leader_slot() == Some(self.0),
    {
        let mut h = JsReplicaLeader::new();
        h.set_leader(self.0);
        h
    }
}

/// What `produce` reports for a message sent: the count of its UTF-8 bytes.
pub fn produced_length(message: &String) -> (r: (Vec<u8>, i64))
    ensures
        r.0@ == vstd::utf8::encode_utf8(message@),
        r.1 == r.0@.len() as i64,
{
    let bytes = utf8_bytes(message);
    let len = bytes.len();
    (bytes, len as i64)
}

/// The bytes of a record value; empty where the value is absent.
pub open spec fn value_bytes(r: RawRecord) -> Seq<u8> {
    match r.value {
        Some(v) => v@,
        None => Seq::empty(),
    }
}

/// Whether `js` is the batch `b` as a fetch passes it back.
pub open spec fn batch_passed(js: JsBatch, b: RawBatch) -> bool {
    &&& js.base_offset == b.base_offset
    &&& js.records@.len() == b.records@.len()
    &&& forall|j: int|
        0 <= j < b.records@.len() ==> (#[trigger] js.records@[j])@ == value_bytes(b.records@[j])
}

/// The batches of a fetched record set as JavaScript receives them.
pub fn batches_of(set: &RawRecordSet) -> (r: Vec<JsBatch>)
    ensures
        r@.len() == set.batches@.len(),
        forall|i: int| 0 <= i < set.batches@.len() ==> #[trigger] batch_passed(r@[i], set.batches@[i]),
{
    let mut out: Vec<JsBatch> = Vec::new();
    let n = set.batches.len();
    for i in 0..n
        invariant
            n == set.batches@.len(),
            out@.len() == i,
            forall|k: int| 0 <= k < i ==> #[trigger] batch_passed(out@[k], set.batches@[k]),
    {
        let b = &set.batches[i];
        let mut records: Vec<Vec<u8>> = Vec::new();
        let m = b.records.len();
        for j in 0..m
            invariant
                m == b.records@.len(),
                records@.len() == j,
                forall|k: int| 0 <= k < j ==> (#[trigger] records@[k])@ == value_bytes(b.records@[k]),
        {
            let bytes = match &b.records[j].value {
                Some(v) => copy_bytes(v.as_slice()),
                None => Vec::new(),
            };
            records.push(bytes);
        }
        out.push(JsBatch { base_offset: b.base_offset, records });
    }
    out
}

/// A batch that a fetch passes back starts at the fetched batch's own base
/// offset, whatever its header holds, and carries the bytes of its record
/// values in order, empty bytes where a value is absent.
pub proof fn lemma_passed_batch_keeps_base_offset(js: JsBatch, b: RawBatch)
    requires
        batch_passed(js, b),
    ensures
        js.base_offset == b.base_offset,
        js.records@.len() == b.records@.len(),
        forall|j: int|
            0 <= j < b.records@.len() ==> (#[trigger] js.records@[j])@ == match b.records@[j].value {
                Some(v) => v@,
                None => Seq::<u8>::empty(),
            },
{
}

impl<L> JsReplicaLeader<L> {
    /// The reply to a batch fetch, given the first response of the fetch
    /// stream: its batches, or an error when the stream yielded none.
    pub fn fetched_batches(first: Option<RawRecordSet>) -> (r: Result<Vec<JsBatch>, FluvioErrorJS>)
        ensures
            match first {
                Some(set) => r matches Ok(bs) && bs@.len() == set.batches@.len() && forall|i: int|
                    0 <= i < set.batches@.len() ==> #[trigger] batch_passed(bs@[i], set.batches@[i]),
                None => r matches Err(e) && e.0@ == "fetch failed"@,
            },
    {
        match first {
            Some(set) => Ok(batches_of(&set)),
            None => Err(FluvioErrorJS(String::from_str("fetch failed"))),
        }
    }
}

/// The count of records in `records` that have a value.
pub open spec fn value_count(records: Seq<RawRecord>) -> nat
    decreases records.len(),
{
    if records.len() == 0 {
        0
    } else {
        value_count(records.drop_last()) + if records.last().value is Some {
            1nat
        } else {
            0nat
        }
    }
}

/// The records a consumer emits for the records of a batch whose base offset
/// is `base`: each record that has a value, in order, numbered from `base` on;
/// records without a value are skipped and take no number.
pub open spec fn emitted(records: Seq<RawRecord>, base: int) -> Seq<(Seq<u8>, int)>
    decreases records.len(),
{
    if records.len() == 0 {
        Seq::empty()
    } else {
        let rest = emitted(records.drop_last(), base);
        match records.last().value {
            Some(v) => rest.push((v@, base + value_count(records.drop_last()))),
            None => rest,
        }
    }
}

/// The records a consumer emits for a record set, batch after batch.
pub open spec fn emitted_all(batches: Seq<RawBatch>) -> Seq<(Seq<u8>, int)>
    decreases batches.len(),
{
    if batches.len() == 0 {
        Seq::empty()
    } else {
        emitted_all(batches.drop_last()) + emitted(
            batches.last().records@,
            batches.last().base_offset as int,
        )
    }
}

/// The bytes and offsets of some consumed records.
pub open spec fn consumed_view(v: Seq<JsRecord>) -> Seq<(Seq<u8>, int)> {
    v.map_values(|r: JsRecord| (r.record@, r.offset as int))
}

/// Whether every offset a consumer numbers the records of `batches` with
/// fits in 64 bits, the one past the last emitted record of each batch
/// included.
pub open spec fn offsets_fit(batches: Seq<RawBatch>) -> bool {
    forall|i: int|
        0 <= i < batches.len() ==> #[trigger] batches[i].base_offset + value_count(
            batches[i].records@,
        ) <= i64::MAX
}

/// A record with a value counts one more than the records before it.
proof fn lemma_value_count_step(records: Seq<RawRecord>, j: int)
    requires
        0 <= j < records.len(),
    ensures
        value_count(records.take(j + 1)) == value_count(records.take(j)) + if records[j].value is Some {
            1nat
        } else {
            0nat
        },
{
    assert(records.take(j + 1).drop_last() =~= records.take(j));
}

/// Fewer records never count more.
proof fn lemma_value_count_prefix(records: Seq<RawRecord>, j: int)
    requires
        0 <= j <= records.len(),
    ensures
        value_count(records.take(j)) <= value_count(records),
    decreases records.len() - j,
{
    if j < records.len() {
        lemma_value_count_step(records, j);
        lemma_value_count_prefix(records, j + 1);
    } else {
        assert(records.take(j) =~= records);
    }
}

/// Within a batch, the emitted records are exactly those with a value and
/// carry consecutive offsets, the first at the batch's base offset.
pub proof fn lemma_emitted_offsets_consecutive(records: Seq<RawRecord>, base: int)
    ensures
        emitted(records, base).len() == value_count(records),
        forall|k: int|
            0 <= k < emitted(records, base).len() ==> (#[trigger] emitted(records, base)[k]).1 == base
                + k,
    decreases records.len(),
{
    if records.len() > 0 {
        lemma_emitted_offsets_consecutive(records.drop_last(), base);
    }
}

/// The records a consumer emits for a fetched record set: those with a value,
/// each numbered by its place among them in its batch, from the batch's base
/// offset on.
pub fn consumed_records(set: &RawRecordSet) -> (r: Vec<JsRecord>)
    requires
        offsets_fit(set.batches@),
    ensures
        consumed_view(r@) == emitted_all(set.batches@),
{
    let mut out: Vec<JsRecord> = Vec::new();
    let n = set.batches.len();
    assert(consumed_view(out@) =~= emitted_all(set.batches@.take(0)));
    for i in 0..n
        invariant
            n == set.batches@.len(),
            offsets_fit(set.batches@),
            consumed_view(out@) == emitted_all(set.batches@.take(i as int)),
    {
        let batch = &set.batches[i];
        let m = batch.records.len();
        let mut offset: i64 = batch.base_offset;
        let ghost before = consumed_view(out@);
        let ghost base = batch.base_offset as int;
        assert(batch.records@.take(0) =~= Seq::<RawRecord>::empty());
        assert(before + emitted(batch.records@.take(0), base) =~= before);
        assert(base + value_count(batch.records@) <= i64::MAX);
        for j in 0..m
            invariant
                m == batch.records@.len(),
                base == batch.base_offset,
                base + value_count(batch.records@) <= i64::MAX,
                offset == base + value_count(batch.records@.take(j as int)),
                consumed_view(out@) == before + emitted(batch.records@.take(j as int), base),
        {
            let ghost prev = consumed_view(out@);
            proof {
                lemma_value_count_step(batch.records@, j as int);
                lemma_value_count_prefix(batch.records@, j + 1);
                assert(batch.records@.take(j + 1).drop_last() =~= batch.records@.take(j as int));
                assert(batch.records@.take(j + 1).last() == batch.records@[j as int]);
            }
            match &batch.records[j].value {
                Some(v) => {
                    let bytes = copy_bytes(v.as_slice());
                    out.push(JsRecord { record: bytes, offset });
                    assert(consumed_view(out@) =~= prev.push((v@, offset as int)));
                    offset = offset + 1;
                },
                None => {},
            }
        }
        proof {
            assert(batch.records@.take(m as int) =~= batch.records@);
            assert(set.batches@.take(i + 1).drop_last() =~= set.batches@.take(i as int));
            assert(set.batches@.take(i + 1).last() == set.batches@[i as int]);
        }
    }
    assert(set.batches@.take(n as int) =~= set.batches@);
    out
}

} // verus!
