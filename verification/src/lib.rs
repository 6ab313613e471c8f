//! Verified core of the Fluvio client bindings for Node.js.
//!
//! The JavaScript side hands this library plain values (strings, numbers,
//! optional properties, byte buffers); the library decides what they mean,
//! builds the client configurations, and shapes the replies that go back.

pub mod error;
pub mod text;
pub mod records;
pub mod handle;
pub mod decimal;
pub mod admin;
pub mod connect;
pub mod filter;
pub mod fluvio;
pub mod producer;
pub mod consumer;
pub mod fetch_consumer;
pub mod replica;

use vstd::prelude::*;

verus! {

/// Topic used when a consumer was made without one.
pub const DEFAULT_TOPIC: &'static str = "default";

/// Partition used when a consumer was made without one.
pub const DEFAULT_PARTITION: i32 = 0;

/// Offset origin that counts from the oldest record.
pub const OFFSET_BEGINNING: &'static str = "beginning";

/// Offset origin that counts back from the newest record.
pub const OFFSET_END: &'static str = "end";

/// Message of the error that every operation reports on a handle with no client.
pub const CLIENT_NOT_FOUND_ERROR_MSG: &'static str =
    "fluvio client not found; ensure fluvio client is instantiated correctly.";

} // verus!
