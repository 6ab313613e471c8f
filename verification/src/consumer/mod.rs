//! Consuming records of a partition: the consumer handle, the records it
//! streams, offsets, and the shape of a fetched partition.

pub mod config;
pub mod response;

use vstd::prelude::*;
use vstd::utf8::{decode_utf8, valid_utf8};

use crate::error::{ArgError, FluvioErrorJS, must, missing_property_message};
use crate::handle::client_lookup;
use crate::records::{Record, RecordView};
use crate::text::{copy_bytes, is_text, lossy_utf8, string_from_utf8_lossy};

verus! {

/// A JavaScript handle to a partition consumer, which may not hold one yet.
pub struct PartitionConsumerJS<C> {
    inner: Option<C>,
}

impl<C> PartitionConsumerJS<C> {
    /// The consumer this handle holds.
    pub closed spec fn client_slot(&self) -> Option<C> {
        self.inner
    }

    /// A handle with no consumer.
    pub fn new() -> (s: Self)
        ensures
            s.client_slot() is None,
    {
        PartitionConsumerJS { inner: None }
    }

    /// The consumer the handle holds, taken out of it.
    pub fn into_client(self) -> (r: Option<C>)
        ensures
            r == self.client_slot(),
    {
        self.inner
    }

    /// Gives the handle its consumer, in place of any it held.
    pub fn set_client(&mut self, client: C)
        ensures
            final(self).client_slot() == Some(client),
    {
        self.inner = Some(client);
    }

    /// The consumer, or the error that the handle holds none.
    pub fn client(&self) -> (r: Result<&C, FluvioErrorJS>)
        ensures
            match client_lookup(self.client_slot()) {
                Ok(c) => r matches Ok(x) && *x == c,
                Err(m) => r matches Err(e) && e.0@ == m,
            },
    {
        match &self.inner {
            Some(c) => Ok(c),
            None => Err(FluvioErrorJS::client_not_found()),
        }
    }
}

/// What a consumer stream does with what the partition yielded next: hand a
/// record to the JavaScript callback, report an error and go on, or stop.
pub enum StreamAction {
    Deliver(RecordJS),
    Report(FluvioErrorJS),
    Stop,
}

impl<C> PartitionConsumerJS<C> {
    /// The action for what the stream yielded next.
    pub fn stream_action(next: Option<Result<Record, FluvioErrorJS>>) -> (a: StreamAction)
        ensures
            match next {
                None => a is Stop,
                Some(Ok(rec)) => a matches StreamAction::Deliver(r) && r.record() == Some(rec@),
                Some(Err(e)) => a matches StreamAction::Report(e2) && e2.0@ == e.0@,
            },
    {
        match next {
            None => StreamAction::Stop,
            Some(Ok(rec)) => StreamAction::Deliver(RecordJS::from_record(rec)),
            Some(Err(e)) => StreamAction::Report(e),
        }
    }
}

/// A record handed to JavaScript, which may be empty.
pub struct RecordJS {
    inner: Option<Record>,
}

impl RecordJS {
    /// The record this handle holds.
    pub closed spec fn record(&self) -> Option<RecordView> {
        match self.inner {
            Some(r) => Some(r@),
            None => None,
        }
    }

    /// An empty record handle.
    pub fn new() -> (s: Self)
        ensures
            s.record() is None,
    {
        RecordJS { inner: None }
    }

    /// Puts a record in the handle.
    pub fn set_inner(&mut self, inner: Record)
        ensures
            final(self).record() == Some(inner@),
    {
        self.inner = Some(inner);
    }

    /// A handle that holds `record`.
    pub fn from_record(record: Record) -> (s: Self)
        ensures
            s.record() == Some(record@),
    {
        RecordJS { inner: Some(record) }
    }

    /// Whether the handle holds a record.
    pub fn has_record(&self) -> (r: bool)
        ensures
            r == self.record() is Some,
    {
        self.inner.is_some()
    }

    /// A copy of the record's key; none when the handle is empty or the record
    /// has no key.
    pub fn key(&self) -> (r: Option<Vec<u8>>)
        ensures
            match self.record() {
                Some(rec) => match rec.key {
                    Some(k) => r matches Some(b) && b@ == k,
                    None => r is None,
                },
                None => r is None,
            },
    {
        match &self.inner {
            Some(rec) => match &rec.key {
                Some(k) => Some(copy_bytes(k.as_slice())),
                None => None,
            },
            None => None,
        }
    }

    /// Whether the record has a key.
    pub fn has_key(&self) -> (r: bool)
        requires
            self.record() is Some,
        ensures
            r == self.record().unwrap().key is Some,
    {
        match &self.inner {
            Some(rec) => rec.key.is_some(),
            None => false,
        }
    }

    /// A copy of the record's value.
    pub fn value(&self) -> (r: Vec<u8>)
        requires
            self.record() is Some,
        ensures
            r@ == self.record().unwrap().value,
    {
        match &self.inner {
            Some(rec) => copy_bytes(rec.value.as_slice()),
            None => Vec::new(),
        }
    }

    /// The record's key as text, invalid UTF-8 replaced; none when the handle
    /// is empty or the record has no key.
    pub fn key_string(&self) -> (r: Option<String>)
        ensures
            match self.record() {
                Some(rec) => match rec.key {
                    Some(k) => r matches Some(s) && s@ == lossy_utf8(k) && (valid_utf8(k)
                        ==> s@ == decode_utf8(k)),
                    None => r is None,
                },
                None => r is None,
            },
    {
        match &self.inner {
            Some(rec) => match &rec.key {
                Some(k) => Some(string_from_utf8_lossy(k.as_slice())),
                None => None,
            },
            None => None,
        }
    }

    /// The record's value as text, invalid UTF-8 replaced.
    pub fn value_string(&self) -> (r: String)
        requires
            self.record() is Some,
        ensures
            r@ == lossy_utf8(self.record().unwrap().value),
            valid_utf8(self.record().unwrap().value) ==> r@ == decode_utf8(
                self.record().unwrap().value,
            ),
    {
        match &self.inner {
            Some(rec) => string_from_utf8_lossy(rec.value.as_slice()),
            None => String::new(),
        }
    }
}

impl Clone for RecordJS {
    fn clone(&self) -> (r: Self)
        ensures
            r.record() == self.record(),
    {
        match &self.inner {
            Some(rec) => RecordJS { inner: Some(rec.clone()) },
            None => RecordJS { inner: None },
        }
    }
}

/// A record stream that JavaScript iterates asynchronously, which may not be
/// set yet.
pub struct PartitionConsumerIterator<S> {
    inner: Option<S>,
}

impl<S> PartitionConsumerIterator<S> {
    /// The stream this iterator holds.
    pub closed spec fn stream_slot(&self) -> Option<S> {
        self.inner
    }

    /// An iterator with no stream, which is done at once.
    pub fn new() -> (s: Self)
        ensures
            s.stream_slot() is None,
    {
        PartitionConsumerIterator { inner: None }
    }

    /// Gives the iterator its stream, in place of any it held.
    pub fn set_inner(&mut self, client: S)
        ensures
            final(self).stream_slot() == Some(client),
    {
        self.inner = Some(client);
    }

    /// The stream to poll for the next step, if there is one.
    pub fn stream_mut(&mut self) -> (r: Option<&mut S>)
        ensures
            match old(self).stream_slot() {
                Some(s) => r matches Some(x) && *x == s && final(self).stream_slot() == Some(
                    *final(x),
                ),
                None => r is None && final(self).stream_slot() is None,
            },
    {
        self.inner.as_mut()
    }

    /// The stream this iterator holds, taken out of it.
    pub fn into_inner(self) -> (r: Option<S>)
        ensures
            r == self.stream_slot(),
    {
        self.inner
    }
}

/// One step of a record stream as JavaScript's async iteration sees it: the
/// next record, or that the stream is done.
pub struct IterItem {
    pub value: Option<RecordJS>,
    pub done: bool,
}

impl IterItem {
    /// The step that ends the stream.
    pub fn new() -> (s: Self)
        ensures
            s.value is None,
            s.done,
    {
        IterItem { value: None, done: true }
    }

    /// Sets both parts of the step.
    pub fn set_inner(&mut self, parts: (Option<RecordJS>, bool))
        ensures
            final(self).value == parts.0,
            final(self).done == parts.1,
    {
        self.value = parts.0;
        self.done = parts.1;
    }

    /// A copy of the step's record.
    pub fn value(&self) -> (r: Option<RecordJS>)
        ensures
            match self.value {
                Some(v) => r matches Some(c) && c.record() == v.record(),
                None => r is None,
            },
    {
        match &self.value {
            Some(v) => Some(v.clone()),
            None => None,
        }
    }

    /// Whether the stream is done.
    pub fn done(&self) -> (r: bool)
        ensures
            r == self.done,
    {
        self.done
    }

    /// The step for what a stream yielded: a record, or its end.
    pub fn from_record(maybe_record: Option<Record>) -> (s: Self)
        ensures
            s.done == maybe_record is None,
            match maybe_record {
                Some(rec) => s.value matches Some(v) && v.record() == Some(rec@),
                None => s.value is None,
            },
    {
        match maybe_record {
            Some(rec) => IterItem { value: Some(RecordJS::from_record(rec)), done: false },
            None => IterItem { value: None, done: true },
        }
    }

    /// The answer to JavaScript's request for the next step, given what the
    /// stream yielded: its end, a record, or an error, which is passed on.
    pub fn from_next(next: Option<Result<Record, FluvioErrorJS>>) -> (r: Result<IterItem, FluvioErrorJS>)
        ensures
            match next {
                None => r matches Ok(s) && s.done && s.value is None,
                Some(Ok(rec)) => r matches Ok(s) && !s.done && (s.value matches Some(v)
                    && v.record() == Some(rec@)),
                Some(Err(e)) => r matches Err(e2) && e2.0@ == e.0@,
            },
    {
        match next {
            None => Ok(IterItem::from_record(None)),
            Some(Ok(rec)) => Ok(IterItem::from_record(Some(rec))),
            Some(Err(e)) => Err(e),
        }
    }
}

/// Where a consumer starts reading: some records after the oldest one, or
/// some records before the newest one.
#[derive(PartialEq, Eq, Structural, Clone, Copy, Debug)]
pub enum Offset {
    FromBeginning(u32),
    FromEnd(u32),
}

/// An offset read from a JavaScript object.
pub struct OffsetWrapper(pub Offset);

/// The message of an offset origin that is neither of the two known ones.
pub open spec fn unknown_offset_message() -> Seq<char> {
    "unknown offset type. Must be either \"beginning\" or \"end\"."@
}

/// The offset that the `from` and `index` properties describe: `index`
/// (required) is cut to 32 bits, and `from` picks the origin, the newest
/// record when it is absent.
pub open spec fn offset_described(from: Option<Seq<char>>, index: i64) -> Option<Offset> {
    match from {
        None => Some(Offset::FromEnd(index as u32)),
        Some(f) => if f == crate::OFFSET_BEGINNING@ {
            Some(Offset::FromBeginning(index as u32))
        } else if f == crate::OFFSET_END@ {
            Some(Offset::FromEnd(index as u32))
        } else {
            None
        },
    }
}

impl OffsetWrapper {
    /// Reads an offset from its `from` and `index` properties.
    pub fn from_properties(from: Option<String>, index: Option<i64>) -> (r: Result<OffsetWrapper, ArgError>)
        ensures
            match index {
                None => r matches Err(e) && e.0@ == missing_property_message("index"@),
                Some(i) => match offset_described(
                    match from {
                        Some(f) => Some(f@),
                        None => None,
                    },
                    i,
                ) {
                    Some(o) => r matches Ok(w) && w.0 == o,
                    None => r matches Err(e) && e.0@ == unknown_offset_message(),
                },
            },
    {
        let offset_index = must("index", index)? as u32;
        let offset = match from {
            Some(f) => if is_text(&f, crate::OFFSET_BEGINNING) {
                Offset::FromBeginning(offset_index)
            } else if is_text(&f, crate::OFFSET_END) {
                Offset::FromEnd(offset_index)
            } else {
                return Err(
                    ArgError::other("unknown offset type. Must be either \"beginning\" or \"end\"."),
                );
            },
            None => Offset::FromEnd(offset_index),
        };
        Ok(OffsetWrapper(offset))
    }
}

} // verus!
