//! The producer handle and the records it sends.

use vstd::prelude::*;
use vstd::utf8::encode_utf8;

use crate::error::FluvioErrorJS;
use crate::handle::client_lookup;
use crate::records::utf8_value;
use crate::text::{copy_bytes, utf8_bytes};

verus! {

/// A JavaScript handle to a topic producer, which may not hold one yet.
pub struct TopicProducerJS<C> {
    inner: Option<C>,
}

impl<C> TopicProducerJS<C> {
    /// The producer this handle holds.
    pub closed spec fn client_slot(&self) -> Option<C> {
        self.inner
    }

    /// A handle with no producer.
    pub fn new() -> (s: Self)
        ensures
            s.client_slot() is None,
    {
        TopicProducerJS { inner: None }
    }

    /// The producer the handle holds, taken out of it.
    pub fn into_client(self) -> (r: Option<C>)
        ensures
            r == self.client_slot(),
    {
        self.inner
    }

    /// Gives the handle its producer, in place of any it held.
    pub fn set_client(&mut self, client: C)
        ensures
            final(self).client_slot() == Some(client),
    {
        self.inner = Some(client);
    }

    /// The producer, or the error that the handle holds none.
    pub fn client(&self) -> (r: Result<&C, FluvioErrorJS>)
        ensures
            match client_lookup(self.client_slot()) {
                Ok(c) => r matches Ok(x) && *x == c,
                Err(m) => r matches Err(e) && e.0@ == m,
            },
    {
        match &self.inner {
            Some(c) => Ok(c),
            None => Err(FluvioErrorJS::client_not_found()),
        }
    }
}

/// A key or value that JavaScript gives `send`: a string or an ArrayBuffer.
pub enum ProduceArg {
    String(String),
    ArrayBuffer(Vec<u8>),
}

/// The bytes that are sent for an argument: a string's UTF-8 encoding, or the
/// buffer's bytes.
pub open spec fn arg_bytes(arg: ProduceArg) -> Seq<u8> {
    match arg {
        ProduceArg::String(s) => encode_utf8(s@),
        ProduceArg::ArrayBuffer(b) => b@,
    }
}

impl ProduceArg {
    /// The bytes that are sent for the argument.
    pub fn bytes(&self) -> (r: Vec<u8>)
        ensures
            r@ == arg_bytes(*self),
    {
        match self {
            ProduceArg::String(s) => utf8_bytes(s),
            ProduceArg::ArrayBuffer(b) => copy_bytes(b.as_slice()),
        }
    }
}

/// The record `sendRecord` sends: an empty key and the value's UTF-8 bytes.
pub fn record_for_value(value: &String) -> (r: (Vec<u8>, Vec<u8>))
    ensures
        r.0@ == Seq::<u8>::empty(),
        r.1@ == encode_utf8(value@),
{
    (Vec::new(), utf8_bytes(value))
}

/// The record `send` sends for a key and a value.
pub fn record_for(key: &ProduceArg, value: &ProduceArg) -> (r: (Vec<u8>, Vec<u8>))
    ensures
        r.0@ == arg_bytes(*key),
        r.1@ == arg_bytes(*value),
{
    (key.bytes(), value.bytes())
}

/// The records `sendAll` sends: one per key and value pair, in order.
pub fn records_for(elements: &Vec<(ProduceArg, ProduceArg)>) -> (r: Vec<(Vec<u8>, Vec<u8>)>)
    ensures
        r@.len() == elements@.len(),
        forall|i: int|
            0 <= i < elements@.len() ==> (#[trigger] r@[i]).0@ == arg_bytes(elements@[i].0)
                && r@[i].1@ == arg_bytes(elements@[i].1),
{
    let mut out: Vec<(Vec<u8>, Vec<u8>)> = Vec::new();
    let n = elements.len();
    for i in 0..n
        invariant
            n == elements@.len(),
            out@.len() == i,
            forall|k: int|
                0 <= k < i ==> (#[trigger] out@[k]).0@ == arg_bytes(elements@[k].0) && out@[k].1@
                    == arg_bytes(elements@[k].1),
    {
        let (key, value) = &elements[i];
        out.push(record_for(key, value));
    }
    out
}

/// A string argument is sent as its UTF-8 encoding, so that what a consumer
/// reads back as text is that string itself, and a buffer argument is sent as
/// its bytes; this holds of the key and the value of every record that `send`
/// and `sendAll` make.
pub proof fn lemma_sent_args_read_back(s: String, b: Vec<u8>)
    ensures
        arg_bytes(ProduceArg::String(s)) == encode_utf8(s@),
        utf8_value(arg_bytes(ProduceArg::String(s))) == Some(s@),
        arg_bytes(ProduceArg::ArrayBuffer(b)) == b@,
{
    lemma_sent_text_reads_back(s@);
}

/// A string that a producer sends as a record value is what a consumer reads
/// back as that record's text: its UTF-8 encoding is valid and decodes to it.
pub proof fn lemma_sent_text_reads_back(value: Seq<char>)
    ensures
        utf8_value(encode_utf8(value)) == Some(value),
{
    vstd::utf8::encode_utf8_valid_utf8(value);
    vstd::utf8::encode_utf8_decode_utf8(value);
}

} // verus!
