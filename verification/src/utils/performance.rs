//! Helpers for watching what an agent uses.

use vstd::prelude::*;

verus! {

/// How much memory is in use.
#[derive(Debug, PartialEq, Eq)]
pub struct MemoryStats {
    /// In bytes.
    pub bytes: usize,
    /// For a reader.
    pub formatted: String,
}

impl MemoryStats {
    /// The memory in use now. The library does not measure it: the count is
    /// zero and the text says that it is unknown.
    pub fn current() -> (r: MemoryStats)
        ensures
            r.bytes == 0,
            r.formatted@ == "Unknown"@,
    {
        MemoryStats { bytes: 0, formatted: "Unknown".to_string() }
    }
}

} // verus!
