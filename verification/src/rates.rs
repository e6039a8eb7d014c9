//! Per-second rate derivation from consecutive cumulative samples.

use crate::memory::Memory;
use crate::records::GlobalSnapshot;
use vstd::prelude::*;

verus! {

/// The rate derived from two consecutive absolute samples: the new value
/// minus the previous one, clamped to zero when the counter appears to
/// have decreased (a counter wrap or subsystem reset).
pub open spec fn spec_rate(prev: Memory, new: Memory) -> Memory {
    if prev.0 <= new.0 {
        Memory((new.0 - prev.0) as u64)
    } else {
        Memory(0)
    }
}

/// The swap backlog of a sample: pages written back to ordinary memory
/// that were neither loaded back nor reclaimed, clamping each subtraction
/// at zero.
pub open spec fn spec_backlog(g: GlobalSnapshot) -> Memory {
    let after_loads = if g.eldu_cnt.0 <= g.ewb_cnt.0 {
        (g.ewb_cnt.0 - g.eldu_cnt.0) as u64
    } else {
        0u64
    };
    if g.freed_backing.0 <= after_loads {
        Memory((after_loads - g.freed_backing.0) as u64)
    } else {
        Memory(0)
    }
}

/// The per-interval rates of one tick, in kilobytes. With the fixed
/// one-second cadence these display as "per second".
#[derive(Debug, Clone, Copy, PartialEq, Eq, Structural)]
pub struct Rates {
    /// Page-allocation rate.
    pub eadd: Memory,
    /// Page-free rate.
    pub eremove: Memory,
    /// Write-back rate.
    pub ewb: Memory,
    /// Load-back rate.
    pub eldu: Memory,
    /// Pages currently evicted to backing storage and not yet reclaimed;
    /// zero on the very first tick.
    pub swap_backlog: Memory,
}

/// Holds the previous sample of each rate-bearing cumulative counter.
/// On the first tick every rate is zero; afterwards each rate is the
/// clamped difference against the held previous value, which is then
/// replaced by the new sample.
#[derive(Debug, Clone, Copy, PartialEq, Eq, Structural)]
pub struct RateTracker {
    /// The previous pages-allocated sample, absent before the first tick.
    pub prev_alloced: Option<Memory>,
    /// The previous pages-freed sample.
    pub prev_freed: Option<Memory>,
    /// The previous write-back sample.
    pub prev_ewb: Option<Memory>,
    /// The previous load-back sample.
    pub prev_eldu: Option<Memory>,
}

impl RateTracker {
    /// A tracker that has seen no sample yet.
    pub fn new() -> (r: RateTracker)
        ensures
            r.prev_alloced is None,
            r.prev_freed is None,
            r.prev_ewb is None,
            r.prev_eldu is None,
    {
        RateTracker { prev_alloced: None, prev_freed: None, prev_eldu: None, prev_ewb: None }
    }

    /// Feed one freshly parsed snapshot and derive this tick's rates.
    /// A counter observed for the first time reports rate zero whatever
    /// its value; afterwards the rate is the difference against the
    /// previous sample, clamped to zero if the counter decreased. The
    /// held previous values are replaced by the new sample regardless.
    pub fn observe(&mut self, g: &GlobalSnapshot) -> (r: Rates)
        ensures
            old(self).prev_alloced is None ==> r.eadd.0 == 0,
            old(self).prev_alloced matches Some(p) ==> r.eadd == spec_rate(p, g.pages_alloced),
            old(self).prev_freed is None ==> r.eremove.0 == 0,
            old(self).prev_freed matches Some(p) ==> r.eremove == spec_rate(p, g.pages_freed),
            old(self).prev_ewb is None ==> r.ewb.0 == 0,
            old(self).prev_ewb matches Some(p) ==> r.ewb == spec_rate(p, g.ewb_cnt),
            old(self).prev_eldu is None ==> r.eldu.0 == 0,
            old(self).prev_eldu matches Some(p) ==> r.eldu == spec_rate(p, g.eldu_cnt),
            old(self).prev_ewb is None ==> r.swap_backlog.0 == 0,
            old(self).prev_ewb is Some ==> r.swap_backlog == spec_backlog(*g),
            final(self).prev_alloced == Some(g.pages_alloced),
            final(self).prev_freed == Some(g.pages_freed),
            final(self).prev_ewb == Some(g.ewb_cnt),
            final(self).prev_eldu == Some(g.eldu_cnt),
    {
        let eadd = match self.prev_alloced {
            None => Memory(0),
            Some(p) => g.pages_alloced.saturating_sub(p),
        };
        let eremove = match self.prev_freed {
            None => Memory(0),
            Some(p) => g.pages_freed.saturating_sub(p),
        };
        let ewb = match self.prev_ewb {
            None => Memory(0),
            Some(p) => g.ewb_cnt.saturating_sub(p),
        };
        let eldu = match self.prev_eldu {
            None => Memory(0),
            Some(p) => g.eldu_cnt.saturating_sub(p),
        };
        let swap_backlog = match self.prev_ewb {
            None => Memory(0),
            Some(_) => g.ewb_cnt.saturating_sub(g.eldu_cnt).saturating_sub(g.freed_backing),
        };
        self.prev_alloced = Some(g.pages_alloced);
        self.prev_freed = Some(g.pages_freed);
        self.prev_ewb = Some(g.ewb_cnt);
        self.prev_eldu = Some(g.eldu_cnt);
        Rates { eadd, eremove, ewb, eldu, swap_backlog }
    }
}

} // verus!
