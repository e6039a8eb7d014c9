//! A memory quantity: a non-negative count of kilobytes.

use crate::text::{dec_chars, rjust};
use crate::text::{pad_left, u64_to_string};
use vstd::prelude::*;

verus! {

/// The display text of a memory quantity of `kb` kilobytes: at or above
/// the scaling threshold of 1024 the count of whole megabytes (floor
/// division) with the `M` marker, below it the raw kilobyte count with
/// the `K` marker; the number right-justified to seven characters.
pub open spec fn mem_chars(kb: u64) -> Seq<char> {
    if kb >= 1024 {
        rjust(dec_chars((kb / 1024) as nat), 7).push('M')
    } else {
        rjust(dec_chars(kb as nat), 7).push('K')
    }
}

/// A memory quantity in kilobytes.
///
/// Values come from the kernel statistics streams (after page-to-kilobyte
/// or byte-to-kilobyte scaling) or from subtracting two quantities.
/// Subtraction saturates at zero: a cumulative counter that appears to
/// have decreased (for example after a subsystem reset) yields 0 rather
/// than wrapping.
#[derive(Debug, Clone, Copy, PartialEq, Eq, Structural)]
pub struct Memory(pub u64);

impl Memory {
    /// The difference `self - other`, clamped to zero when `other` is
    /// the larger quantity.
    pub fn saturating_sub(self, other: Memory) -> (r: Memory)
        ensures
            other.0 <= self.0 ==> r.0 == self.0 - other.0,
            other.0 > self.0 ==> r.0 == 0,
    {
        if other.0 <= self.0 {
            Memory(self.0 - other.0)
        } else {
            Memory(0)
        }
    }

    /// The quantity scaled for display: megabytes at or above 1024 KB,
    /// kilobytes below, in a fixed-width field with the unit marker.
    pub fn render(&self) -> (r: String)
        ensures
            r@ == mem_chars(self.0),
    {
        if self.0 >= 1024 {
            let mut s = pad_left(u64_to_string(self.0 / 1024), 7);
            s.append("M");
            proof {
                reveal_strlit("M");
                assert(s@ =~= mem_chars(self.0));
            }
            s
        } else {
            let mut s = pad_left(u64_to_string(self.0), 7);
            s.append("K");
            proof {
                reveal_strlit("K");
                assert(s@ =~= mem_chars(self.0));
            }
            s
        }
    }
}

} // verus!
