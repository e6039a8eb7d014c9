//! The structured values parsed from the two kernel statistics streams:
//! one row per enclave, and the aggregate subsystem counters.

use crate::flags::EnclaveState;
use crate::memory::Memory;
use vstd::prelude::*;

verus! {

/// One row of the live table, rebuilt from scratch every sample tick.
#[derive(Debug, Clone, Copy, PartialEq, Eq, Structural)]
pub struct Enclave {
    /// The owning process id, used only for the command-line lookup.
    pub pid: u64,
    /// The globally unique enclave id.
    pub eid: u64,
    /// Enclave address-space size: an upper bound never reclaimed.
    pub virt: Memory,
    /// Cumulative pages committed into the enclave.
    pub eadds: Memory,
    /// Pages currently resident in protected memory.
    pub rss: Memory,
    /// Version-array bookkeeping pages, already counted within `eadds`.
    pub va: Memory,
    /// Pages evicted to ordinary memory, recoverable later.
    pub swap: Memory,
    /// The lifecycle bitmask, stored raw.
    pub state: EnclaveState,
}

/// The aggregate subsystem counters of one sample.
#[derive(Debug, Clone, Copy, PartialEq, Eq, Structural)]
pub struct GlobalSnapshot {
    /// Enclaves created since boot (cumulative).
    pub created: u64,
    /// Enclaves released since boot (cumulative).
    pub released: u64,
    /// Pages allocated since boot (cumulative).
    pub pages_alloced: Memory,
    /// Pages freed since boot (cumulative).
    pub pages_freed: Memory,
    /// Total protected-memory capacity; constant for the process lifetime.
    pub total_epc: Memory,
    /// Version-array page count.
    pub va_pages: Memory,
    /// Free protected-memory pages.
    pub free_pages: Memory,
    /// Pages written back to ordinary memory since boot (cumulative).
    pub ewb_cnt: Memory,
    /// Pages loaded back into protected memory since boot (cumulative).
    pub eldu_cnt: Memory,
    /// Backing pages reclaimed on enclave release since boot (cumulative).
    pub freed_backing: Memory,
}

impl GlobalSnapshot {
    /// Well-formedness: no more enclaves have been released than created,
    /// and no more pages are free than the capacity holds.
    pub open spec fn wf(self) -> bool {
        self.released <= self.created && self.free_pages.0 <= self.total_epc.0
    }

    /// Enclaves currently alive: created minus released, never negative.
    pub fn running(&self) -> (r: u64)
        requires
            self.wf(),
        ensures
            r == self.created - self.released,
    {
        self.created - self.released
    }

    /// Protected memory currently in use: capacity minus free pages,
    /// never negative.
    pub fn used(&self) -> (r: Memory)
        requires
            self.wf(),
        ensures
            r.0 == self.total_epc.0 - self.free_pages.0,
    {
        Memory(self.total_epc.0 - self.free_pages.0)
    }
}

} // verus!
