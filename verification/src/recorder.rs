//! How long a recording goes on.

use vstd::prelude::*;

verus! {

/// Whether a recording takes one more row: it has not been stopped, and
/// the time to record, where there is one, has not been passed.
pub open spec fn continues(running: bool, elapsed_ms: u64, limit_ms: Option<u64>) -> bool {
    running && (match limit_ms {
        Some(limit) => elapsed_ms <= limit,
        None => true,
    })
}

/// Whether a recording takes one more row, `elapsed_ms` milliseconds
/// after it began.
pub fn keep_recording(running: bool, elapsed_ms: u64, limit_ms: Option<u64>) -> (r: bool)
    ensures
        r == continues(running, elapsed_ms, limit_ms),
{
    running && match limit_ms {
        Some(limit) => elapsed_ms <= limit,
        None => true,
    }
}

} // verus!
