//! The records a consumer reads, as plain values, and the numeric form in
//! which a batch header is shown to JavaScript.

use vstd::prelude::*;
use vstd::utf8::*;

use crate::text::{copy_bytes, string_from_utf8};

verus! {

/// Property of a batch header: the leader epoch of the partition.
pub const PARTITION_LEADER_EPOCH_KEY: &'static str = "partitionLeaderEpoch";
/// Property of a batch header: the format version.
pub const MAGIC_KEY: &'static str = "magic";
/// Property of a batch header: the checksum.
pub const CRC_KEY: &'static str = "crc";
/// Property of a batch header: the attribute bits.
pub const ATTRIBUTES_KEY: &'static str = "attributes";
/// Property of a batch header: offset of the last record from the base.
pub const LAST_OFFSET_DELTA_KEY: &'static str = "lastOffsetDelta";
/// Property of a batch header: timestamp of the first record.
pub const FIRST_TIMESTAMP_KEY: &'static str = "firstTimestamp";
/// Property of a batch header: greatest timestamp.
pub const MAX_TIMESTAMP_KEY: &'static str = "maxTimeStamp";
/// Property of a batch header, and of an aborted transaction: the producer.
pub const PRODUCER_ID_KEY: &'static str = "producerId";
/// Property of a batch header: the producer's epoch.
pub const PRODUCER_EPOCH_KEY: &'static str = "producerEpoch";
/// Property of a batch header: sequence number of the first record.
pub const FIRST_SEQUENCE_KEY: &'static str = "firstSequence";
/// Property of a batch: offset of its first record.
pub const BATCH_OFFSET_KEY: &'static str = "baseOffset";
/// Property of a batch: its length in bytes.
pub const BATCH_LENGTH_KEY: &'static str = "batchLength";
/// Property of a batch: its header.
pub const HEADER_KEY: &'static str = "header";
/// Property of a batch: its records.
pub const RECORDS_KEY: &'static str = "records";
/// Property of a record: its header count.
pub const HEADERS_KEY: &'static str = "headers";
/// Property of a record: its key.
pub const KEY_KEY: &'static str = "key";
/// Property of a record: its value.
pub const VALUE_KEY: &'static str = "value";
/// Property of a record set: its batches.
pub const BATCHES_KEY: &'static str = "batches";

/// The header of a batch of records.
#[derive(Clone, Copy)]
pub struct BatchHeader {
    pub partition_leader_epoch: i32,
    pub magic: i8,
    pub crc: u32,
    pub attributes: i16,
    pub last_offset_delta: i32,
    pub first_timestamp: i64,
    pub max_time_stamp: i64,
    pub producer_id: i64,
    pub producer_epoch: i16,
    pub first_sequence: i32,
}

/// A record: an optional key, a value, and the count of its headers.
pub struct Record {
    pub key: Option<Vec<u8>>,
    pub value: Vec<u8>,
    pub headers: i64,
}

/// The contents of a record, as values.
pub struct RecordView {
    pub key: Option<Seq<u8>>,
    pub value: Seq<u8>,
    pub headers: i64,
}

impl View for Record {
    type V = RecordView;

    open spec fn view(&self) -> RecordView {
        RecordView {
            key: match self.key {
                Some(k) => Some(k@),
                None => None,
            },
            value: self.value@,
            headers: self.headers,
        }
    }
}

impl Clone for Record {
    fn clone(&self) -> (r: Self)
        ensures
            r@ == self@,
    {
        let key = match &self.key {
            Some(k) => Some(copy_bytes(k.as_slice())),
            None => None,
        };
        Record { key, value: copy_bytes(self.value.as_slice()), headers: self.headers }
    }
}

/// A batch of records and the offset of its first record.
pub struct Batch {
    pub base_offset: i64,
    pub batch_len: i32,
    pub header: BatchHeader,
    pub records: Vec<Record>,
}

/// The batches that one fetch returns.
pub struct RecordSet {
    pub batches: Vec<Batch>,
}

/// A record whose value buffer may be absent.
pub struct RawRecord {
    pub value: Option<Vec<u8>>,
    pub headers: i64,
}

/// A batch of records whose value buffers may be absent.
pub struct RawBatch {
    pub base_offset: i64,
    pub batch_len: i32,
    pub header: BatchHeader,
    pub records: Vec<RawRecord>,
}

/// The batches of records, with value buffers that may be absent, of one fetch.
pub struct RawRecordSet {
    pub batches: Vec<RawBatch>,
}

/// A batch header in the numbers JavaScript receives: the narrow fields
/// widened to 32 bits, and the checksum reinterpreted as a signed number.
#[derive(Clone, Copy)]
pub struct BatchHeaderJs {
    pub partition_leader_epoch: i32,
    pub magic: i32,
    pub crc: i32,
    pub attributes: i32,
    pub last_offset_delta: i32,
    pub first_timestamp: i64,
    pub max_time_stamp: i64,
    pub producer_id: i64,
    pub producer_epoch: i32,
    pub first_sequence: i32,
}

/// Whether `js` shows the header `h`.
pub open spec fn header_shown(js: BatchHeaderJs, h: BatchHeader) -> bool {
    &&& js.partition_leader_epoch == h.partition_leader_epoch
    &&& js.magic == h.magic as i32
    &&& js.crc == h.crc as i32
    &&& js.attributes == h.attributes as i32
    &&& js.last_offset_delta == h.last_offset_delta
    &&& js.first_timestamp == h.first_timestamp
    &&& js.max_time_stamp == h.max_time_stamp
    &&& js.producer_id == h.producer_id
    &&& js.producer_epoch == h.producer_epoch as i32
    &&& js.first_sequence == h.first_sequence
}

/// Every field of a header shown to JavaScript comes from the same-named field
/// of the batch header, the narrower integers widened to 32 bits and the
/// checksum's bits kept: the first timestamp is the batch's first timestamp and
/// the max timestamp its max timestamp.
pub proof fn lemma_shown_header_fields(js: BatchHeaderJs, h: BatchHeader)
    requires
        header_shown(js, h),
    ensures
        js.first_timestamp == h.first_timestamp,
        js.max_time_stamp == h.max_time_stamp,
        js.partition_leader_epoch == h.partition_leader_epoch,
        js.magic as int == h.magic as int,
        js.crc as u32 == h.crc,
        js.attributes as int == h.attributes as int,
        js.last_offset_delta == h.last_offset_delta,
        js.producer_id == h.producer_id,
        js.producer_epoch as int == h.producer_epoch as int,
        js.first_sequence == h.first_sequence,
{
    let c = h.crc;
    assert((c as i32) as u32 == c) by (bit_vector);
}

/// The header as JavaScript receives it.
pub fn header_js(h: &BatchHeader) -> (js: BatchHeaderJs)
    ensures
        header_shown(js, *h),
{
    BatchHeaderJs {
        partition_leader_epoch: h.partition_leader_epoch,
        magic: h.magic as i32,
        crc: h.crc as i32,
        attributes: h.attributes as i32,
        last_offset_delta: h.last_offset_delta,
        first_timestamp: h.first_timestamp,
        max_time_stamp: h.max_time_stamp,
        producer_id: h.producer_id,
        producer_epoch: h.producer_epoch as i32,
        first_sequence: h.first_sequence,
    }
}

/// The text that a byte value holds, if it is valid UTF-8.
pub open spec fn utf8_value(bytes: Seq<u8>) -> Option<Seq<char>> {
    if valid_utf8(bytes) {
        Some(decode_utf8(bytes))
    } else {
        None
    }
}

/// The text a byte value holds, if it is valid UTF-8.
pub fn text_of(bytes: &Vec<u8>) -> (r: Option<String>)
    ensures
        match r {
            Some(s) => utf8_value(bytes@) == Some(s@),
            None => utf8_value(bytes@) is None,
        },
{
    string_from_utf8(copy_bytes(bytes.as_slice()))
}

} // verus!
