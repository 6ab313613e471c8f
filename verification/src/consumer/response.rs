//! A fetched partition as the consumer hands it to JavaScript.

use vstd::prelude::*;

use crate::records::{
    Batch, BatchHeaderJs, Record, RecordSet, header_js, header_shown, text_of, utf8_value,
};

verus! {

/// A transaction whose records a reader must skip.
#[derive(Clone, Copy)]
pub struct AbortedTransaction {
    pub producer_id: i64,
    pub first_offset: i64,
}

/// One partition of a fetch response.
pub struct FetchablePartitionResponse {
    pub partition_index: u32,
    pub high_watermark: i64,
    pub log_start_offset: i64,
    pub aborted: Option<Vec<AbortedTransaction>>,
    pub records: RecordSet,
}

/// An aborted transaction handed to JavaScript.
pub struct AbortedTransactionWrapper(pub AbortedTransaction);

/// A fetched partition handed to JavaScript, which may be empty.
pub struct FetchablePartitionResponseWrapper(pub Option<FetchablePartitionResponse>);

/// A record set lent to JavaScript.
pub struct RecordSetWrapper<'a>(pub &'a RecordSet);

/// A record as JavaScript receives it in a record set: its header count, an
/// empty key, and its value as text when the value is valid UTF-8.
pub struct RecordFieldsJs {
    pub headers: i64,
    pub key: Vec<u8>,
    pub value: Option<String>,
}

/// A batch as JavaScript receives it.
pub struct BatchJs {
    pub base_offset: i64,
    pub batch_length: i32,
    pub header: BatchHeaderJs,
    pub records: Vec<RecordFieldsJs>,
}

/// A record set as JavaScript receives it.
pub struct RecordSetJs {
    pub batches: Vec<BatchJs>,
}

/// Whether `js` shows the record `r`.
pub open spec fn record_shown(js: RecordFieldsJs, r: Record) -> bool {
    &&& js.headers == r.headers
    &&& js.key@ == Seq::<u8>::empty()
    &&& match js.value {
        Some(s) => utf8_value(r.value@) == Some(s@),
        None => utf8_value(r.value@) is None,
    }
}

/// Whether `js` shows the batch `b`.
pub open spec fn batch_shown(js: BatchJs, b: Batch) -> bool {
    &&& js.base_offset == b.base_offset
    &&& js.batch_length == b.batch_len
    &&& header_shown(js.header, b.header)
    &&& js.records@.len() == b.records@.len()
    &&& forall|j: int|
        0 <= j < b.records@.len() ==> #[trigger] record_shown(js.records@[j], b.records@[j])
}

/// The batch as JavaScript receives it.
pub fn batch_js(b: &Batch) -> (js: BatchJs)
    ensures
        batch_shown(js, *b),
{
    let mut records: Vec<RecordFieldsJs> = Vec::new();
    let n = b.records.len();
    for j in 0..n
        invariant
            n == b.records@.len(),
            records@.len() == j,
            forall|k: int| 0 <= k < j ==> #[trigger] record_shown(records@[k], b.records@[k]),
    {
        let r = &b.records[j];
        records.push(RecordFieldsJs { headers: r.headers, key: Vec::new(), value: text_of(&r.value) });
    }
    BatchJs {
        base_offset: b.base_offset,
        batch_length: b.batch_len,
        header: header_js(&b.header),
        records,
    }
}

impl<'a> RecordSetWrapper<'a> {
    /// The record set as JavaScript receives it, batch by batch.
    pub fn to_js(&self) -> (js: RecordSetJs)
        ensures
            js.batches@.len() == self.0.batches@.len(),
            forall|i: int|
                0 <= i < self.0.batches@.len() ==> #[trigger] batch_shown(
                    js.batches@[i],
                    self.0.batches@[i],
                ),
    {
        let mut batches: Vec<BatchJs> = Vec::new();
        let n = self.0.batches.len();
        for i in 0..n
            invariant
                n == self.0.batches@.len(),
                batches@.len() == i,
                forall|k: int|
                    0 <= k < i ==> #[trigger] batch_shown(batches@[k], self.0.batches@[k]),
        {
            batches.push(batch_js(&self.0.batches[i]));
        }
        RecordSetJs { batches }
    }
}

/// The texts of the values of `records` that are valid UTF-8, in order.
pub open spec fn record_texts(records: Seq<Record>) -> Seq<Seq<char>>
    decreases records.len(),
{
    if records.len() == 0 {
        Seq::empty()
    } else {
        let rest = record_texts(records.drop_last());
        match utf8_value(records.last().value@) {
            Some(t) => rest.push(t),
            None => rest,
        }
    }
}

/// The texts of the values in `batches` that are valid UTF-8, batch by batch
/// and in order within a batch.
pub open spec fn batch_texts(batches: Seq<Batch>) -> Seq<Seq<char>>
    decreases batches.len(),
{
    if batches.len() == 0 {
        Seq::empty()
    } else {
        batch_texts(batches.drop_last()) + record_texts(batches.last().records@)
    }
}

/// The views of some strings.
pub open spec fn texts(v: Seq<String>) -> Seq<Seq<char>> {
    v.map_values(|s: String| s@)
}

impl FetchablePartitionResponseWrapper {
    /// An empty response.
    pub fn new() -> (s: Self)
        ensures
            s.0 is None,
    {
        FetchablePartitionResponseWrapper(None)
    }

    /// Puts a response in the wrapper.
    pub fn set_inner(&mut self, inner: Option<FetchablePartitionResponse>)
        ensures
            final(self).0 == inner,
    {
        self.0 = inner;
    }

    /// The partition's index.
    pub fn partition_index(&self) -> (r: Option<u32>)
        ensures
            r == match self.0 {
                Some(p) => Some(p.partition_index),
                None => None::<u32>,
            },
    {
        match &self.0 {
            Some(p) => Some(p.partition_index),
            None => None,
        }
    }

    /// The partition's high watermark.
    pub fn high_watermark(&self) -> (r: Option<i64>)
        ensures
            r == match self.0 {
                Some(p) => Some(p.high_watermark),
                None => None::<i64>,
            },
    {
        match &self.0 {
            Some(p) => Some(p.high_watermark),
            None => None,
        }
    }

    /// The partition's last stable offset, which this binding reports as its
    /// high watermark.
    pub fn last_stable_offset(&self) -> (r: Option<i64>)
        ensures
            r == match self.0 {
                Some(p) => Some(p.high_watermark),
                None => None::<i64>,
            },
    {
        match &self.0 {
            Some(p) => Some(p.high_watermark),
            None => None,
        }
    }

    /// The offset of the partition's oldest record.
    pub fn log_start_offset(&self) -> (r: Option<i64>)
        ensures
            r == match self.0 {
                Some(p) => Some(p.log_start_offset),
                None => None::<i64>,
            },
    {
        match &self.0 {
            Some(p) => Some(p.log_start_offset),
            None => None,
        }
    }

    /// The aborted transactions, in order; none for an empty response or one
    /// without the list.
    pub fn aborted(&self) -> (r: Vec<AbortedTransactionWrapper>)
        ensures
            match self.0 {
                Some(p) => match p.aborted {
                    Some(ts) => r@.len() == ts@.len() && forall|i: int|
                        0 <= i < ts@.len() ==> (#[trigger] r@[i]).0 == ts@[i],
                    None => r@.len() == 0,
                },
                None => r@.len() == 0,
            },
    {
        let mut out: Vec<AbortedTransactionWrapper> = Vec::new();
        let inner = match &self.0 {
            Some(p) => p,
            None => return out,
        };
        if let Some(ts) = &inner.aborted {
            let n = ts.len();
            for i in 0..n
                invariant
                    n == ts@.len(),
                    out@.len() == i,
                    forall|k: int| 0 <= k < i ==> (#[trigger] out@[k]).0 == ts@[k],
            {
                out.push(AbortedTransactionWrapper(ts[i]));
            }
        }
        out
    }

    /// The record set of the response, lent.
    pub fn records(&self) -> (r: Option<RecordSetWrapper<'_>>)
        ensures
            match self.0 {
                Some(p) => r matches Some(w) && *w.0 == p.records,
                None => r is None,
            },
    {
        match &self.0 {
            Some(p) => Some(RecordSetWrapper(&p.records)),
            None => None,
        }
    }

    /// The values of all records that are valid UTF-8, as text, in order;
    /// the others are left out.
    pub fn to_records(&self) -> (r: Vec<String>)
        ensures
            texts(r@) == match self.0 {
                Some(p) => batch_texts(p.records.batches@),
                None => Seq::<Seq<char>>::empty(),
            },
    {
        let mut out: Vec<String> = Vec::new();
        let inner = match &self.0 {
            Some(p) => p,
            None => {
                assert(texts(out@) =~= Seq::<Seq<char>>::empty());
                return out;
            },
        };
        let batches = &inner.records.batches;
        let n = batches.len();
        assert(texts(out@) =~= batch_texts(batches@.take(0)));
        for i in 0..n
            invariant
                n == batches@.len(),
                texts(out@) == batch_texts(batches@.take(i as int)),
        {
            let records = &batches[i].records;
            let m = records.len();
            let ghost before = texts(out@);
            assert(records@.take(0) =~= Seq::<Record>::empty());
            assert(before + record_texts(records@.take(0)) =~= before);
            for j in 0..m
                invariant
                    m == records@.len(),
                    texts(out@) == before + record_texts(records@.take(j as int)),
            {
                let ghost prev = texts(out@);
                assert(records@.take(j + 1).drop_last() =~= records@.take(j as int));
                match text_of(&records[j].value) {
                    Some(t) => {
                        out.push(t);
                        assert(texts(out@) =~= prev.push(t@));
                    },
                    None => {},
                }
            }
            assert(records@.take(m as int) =~= records@);
            assert(batches@.take(i + 1).drop_last() =~= batches@.take(i as int));
        }
        assert(batches@.take(n as int) =~= batches@);
        out
    }
}

/// The texts a record set shown to JavaScript holds in the records of a
/// batch, in order.
pub open spec fn shown_record_texts(records: Seq<RecordFieldsJs>) -> Seq<Seq<char>>
    decreases records.len(),
{
    if records.len() == 0 {
        Seq::empty()
    } else {
        let rest = shown_record_texts(records.drop_last());
        match records.last().value {
            Some(t) => rest.push(t@),
            None => rest,
        }
    }
}

/// The texts a record set shown to JavaScript holds, batch by batch.
pub open spec fn shown_batch_texts(batches: Seq<BatchJs>) -> Seq<Seq<char>>
    decreases batches.len(),
{
    if batches.len() == 0 {
        Seq::empty()
    } else {
        shown_batch_texts(batches.drop_last()) + shown_record_texts(batches.last().records@)
    }
}

proof fn lemma_shown_record_texts(js: Seq<RecordFieldsJs>, records: Seq<Record>)
    requires
        js.len() == records.len(),
        forall|j: int| 0 <= j < records.len() ==> #[trigger] record_shown(js[j], records[j]),
    ensures
        shown_record_texts(js) == record_texts(records),
    decreases records.len(),
{
    if records.len() > 0 {
        let n = records.len() - 1;
        assert(record_shown(js[n], records[n]));
        lemma_shown_record_texts(js.drop_last(), records.drop_last());
    }
}

/// The texts that `to_records` lists for a record set are exactly the values
/// that its JavaScript view shows as text, in the same order.
pub proof fn lemma_listed_texts_are_shown_texts(js: RecordSetJs, set: RecordSet)
    requires
        js.batches@.len() == set.batches@.len(),
        forall|i: int|
            0 <= i < set.batches@.len() ==> #[trigger] batch_shown(js.batches@[i], set.batches@[i]),
    ensures
        shown_batch_texts(js.batches@) == batch_texts(set.batches@),
{
    lemma_listed_texts_are_shown_texts_seq(js.batches@, set.batches@);
}

proof fn lemma_listed_texts_are_shown_texts_seq(js: Seq<BatchJs>, batches: Seq<Batch>)
    requires
        js.len() == batches.len(),
        forall|i: int| 0 <= i < batches.len() ==> #[trigger] batch_shown(js[i], batches[i]),
    ensures
        shown_batch_texts(js) == batch_texts(batches),
    decreases batches.len(),
{
    if batches.len() > 0 {
        let n = batches.len() - 1;
        assert(batch_shown(js[n], batches[n]));
        lemma_shown_record_texts(js[n].records@, batches[n].records@);
        lemma_listed_texts_are_shown_texts_seq(js.drop_last(), batches.drop_last());
    }
}

} // verus!
