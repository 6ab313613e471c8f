//! The client handle, and producer settings read from JavaScript.

use vstd::prelude::*;

use crate::error::{ArgError, FluvioErrorJS};
use crate::handle::client_lookup;
use crate::text::is_text;

verus! {

/// A JavaScript handle to a cluster client, which may not hold one yet.
pub struct FluvioJS<C> {
    inner: Option<C>,
}

impl<C> FluvioJS<C> {
    /// The client this handle holds.
    pub closed spec fn client_slot(&self) -> Option<C> {
        self.inner
    }

    /// A handle with no client.
    pub fn new() -> (s: Self)
        ensures
            s.client_slot() is None,
    {
        FluvioJS { inner: None }
    }

    /// The client the handle holds, taken out of it.
    pub fn into_client(self) -> (r: Option<C>)
        ensures
            r == self.client_slot(),
    {
        self.inner
    }

    /// Gives the handle its client, in place of any it held.
    pub fn set_client(&mut self, client: C)
        ensures
            final(self).client_slot() == Some(client),
    {
        self.inner = Some(client);
    }

    /// The client, or the error that the handle holds none.
    pub fn client(&self) -> (r: Result<&C, FluvioErrorJS>)
        ensures
            match client_lookup(self.client_slot()) {
                Ok(c) => r matches Ok(x) && *x == c,
                Err(m) => r matches Err(e) && e.0@ == m,
            },
    {
        match &self.inner {
            Some(c) => Ok(c),
            None => Err(FluvioErrorJS::client_not_found()),
        }
    }
}

/// How a producer compresses its batches.
#[derive(PartialEq, Eq, Structural, Clone, Copy, Debug)]
pub enum Compression {
    NoCompression,
    Gzip,
    Snappy,
    Lz4,
    Zstd,
}

/// The producer settings that JavaScript gave; an absent one keeps the
/// producer's default.
pub struct TopicProducerConfig {
    pub compression: Option<Compression>,
    pub max_request_size: Option<usize>,
    pub batch_size: Option<usize>,
    pub batch_queue_size: Option<usize>,
    pub linger_ms: Option<u64>,
}

/// Producer settings read from JavaScript.
pub struct TopicProducerConfigWrapper {
    pub inner: TopicProducerConfig,
}

/// The compression that a `compression` value names.
pub open spec fn compression_named(c: Seq<char>) -> Option<Compression> {
    if c == "none"@ {
        Some(Compression::NoCompression)
    } else if c == "gzip"@ {
        Some(Compression::Gzip)
    } else if c == "snappy"@ {
        Some(Compression::Snappy)
    } else if c == "lz4"@ {
        Some(Compression::Lz4)
    } else if c == "zstd"@ {
        Some(Compression::Zstd)
    } else {
        None
    }
}

/// The message of a `compression` value that names no compression.
pub open spec fn invalid_compression_message(c: Seq<char>) -> Seq<char> {
    "Invalid compression type: "@ + c
}

/// A size JavaScript gave, as the producer takes it: the 64-bit number
/// reinterpreted as an unsigned size.
pub open spec fn size_of(v: Option<i64>) -> Option<usize> {
    match v {
        Some(n) => Some(n as usize),
        None => None,
    }
}

/// A size JavaScript gave, as the producer takes it.
fn size_from(v: Option<i64>) -> (r: Option<usize>)
    ensures
        r == size_of(v),
{
    match v {
        Some(n) => Some(n as usize),
        None => None,
    }
}

impl TopicProducerConfigWrapper {
    /// Reads producer settings from the optional `compression`,
    /// `maxRequestSize`, `batchSize`, `batchQueueSize` and `lingerMs`
    /// properties.
    pub fn from_properties(
        compression: Option<String>,
        max_request_size: Option<i64>,
        batch_size: Option<i64>,
        batch_queue_size: Option<i64>,
        linger_ms: Option<i64>,
    ) -> (r: Result<TopicProducerConfigWrapper, ArgError>)
        ensures
            match compression {
                Some(c) if compression_named(c@) is None => r matches Err(e) && e.0@
                    == invalid_compression_message(c@),
                _ => r matches Ok(w) && w.inner.compression == match compression {
                    Some(c) => compression_named(c@),
                    None => None::<Compression>,
                } && w.inner.max_request_size == size_of(max_request_size) && w.inner.batch_size
                    == size_of(batch_size) && w.inner.batch_queue_size == size_of(batch_queue_size)
                    && w.inner.linger_ms == match linger_ms {
                    Some(ms) => Some(ms as u64),
                    None => None::<u64>,
                },
            },
    {
        let compression = match compression {
            Some(c) => {
                if is_text(&c, "none") {
                    Some(Compression::NoCompression)
                } else if is_text(&c, "gzip") {
                    Some(Compression::Gzip)
                } else if is_text(&c, "snappy") {
                    Some(Compression::Snappy)
                } else if is_text(&c, "lz4") {
                    Some(Compression::Lz4)
                } else if is_text(&c, "zstd") {
                    Some(Compression::Zstd)
                } else {
                    return Err(ArgError::prefixed("Invalid compression type: ", c.as_str()));
                }
            },
            None => None,
        };
        let linger_ms = match linger_ms {
            Some(ms) => Some(ms as u64),
            None => None,
        };
        Ok(
            TopicProducerConfigWrapper {
                inner: TopicProducerConfig {
                    compression,
                    max_request_size: size_from(max_request_size),
                    batch_size: size_from(batch_size),
                    batch_queue_size: size_from(batch_queue_size),
                    linger_ms,
                },
            },
        )
    }
}

} // verus!
