//! The log filter that a test SmartModule applies: it drops debug records.

use vstd::prelude::*;

use crate::text::is_text;

verus! {

/// A log line as the filter reads it from a record's JSON value.
pub struct LogRecord {
    pub level: String,
    pub message: String,
}

/// Whether the filter keeps a log record: all but those at level `debug`.
pub fn keeps(record: &LogRecord) -> (r: bool)
    ensures
        r == (record.level@ != "debug"@),
{
    !is_text(&record.level, "debug")
}

} // verus!
