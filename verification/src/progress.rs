//! Arithmetic behind the progress display.

use vstd::prelude::*;

verus! {

/// Percentage of a copy that is complete, as reported to a progress sink
/// after each chunk.
pub fn progress_percent(copied_bytes: u64, total_bytes: u64) -> (r: u64)
    requires
        total_bytes > 0,
        copied_bytes <= u64::MAX / 100,
    ensures
        r == copied_bytes as int * 100 / total_bytes as int,
{
    copied_bytes * 100 / total_bytes
}

} // verus!
