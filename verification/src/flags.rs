//! Enclave lifecycle state: a bitmask decoded into named flags.

use crate::text::pad_left;
use crate::text::rjust;
use vstd::prelude::*;

verus! {

pub const SGX_ENCL_INITIALIZED: u64 = 1;

pub const SGX_ENCL_DEBUG: u64 = 2;

pub const SGX_ENCL_SECS_EVICTED: u64 = 4;

pub const SGX_ENCL_SUSPEND: u64 = 8;

pub const SGX_ENCL_DEAD: u64 = 16;

/// One lifecycle flag, in declaration (display) order.
#[derive(Debug, Clone, Copy, PartialEq, Eq, Structural)]
pub enum LifecycleFlag {
    Initialized,
    Debug,
    SecsEvicted,
    Suspended,
    Dead,
}

impl LifecycleFlag {
    /// The display name of the flag.
    pub open spec fn spec_name(self) -> Seq<char> {
        match self {
            LifecycleFlag::Initialized => "INIT"@,
            LifecycleFlag::Debug => "DEBUG"@,
            LifecycleFlag::SecsEvicted => "EVICT"@,
            LifecycleFlag::Suspended => "SUS"@,
            LifecycleFlag::Dead => "DEAD"@,
        }
    }

    /// The display name of the flag.
    pub fn name(self) -> (r: &'static str)
        ensures
            r@ == self.spec_name(),
    {
        match self {
            LifecycleFlag::Initialized => "INIT",
            LifecycleFlag::Debug => "DEBUG",
            LifecycleFlag::SecsEvicted => "EVICT",
            LifecycleFlag::Suspended => "SUS",
            LifecycleFlag::Dead => "DEAD",
        }
    }
}

/// The flags active in the bitmask `m`, in declaration order. Bits beyond
/// the five known ones carry no flag and are ignored.
pub open spec fn spec_flags(m: u64) -> Seq<LifecycleFlag> {
    (if m & SGX_ENCL_INITIALIZED != 0 {
        seq![LifecycleFlag::Initialized]
    } else {
        Seq::empty()
    }) + (if m & SGX_ENCL_DEBUG != 0 {
        seq![LifecycleFlag::Debug]
    } else {
        Seq::empty()
    }) + (if m & SGX_ENCL_SECS_EVICTED != 0 {
        seq![LifecycleFlag::SecsEvicted]
    } else {
        Seq::empty()
    }) + (if m & SGX_ENCL_SUSPEND != 0 {
        seq![LifecycleFlag::Suspended]
    } else {
        Seq::empty()
    }) + (if m & SGX_ENCL_DEAD != 0 {
        seq![LifecycleFlag::Dead]
    } else {
        Seq::empty()
    })
}

/// Flag names joined by a comma with no spaces.
pub open spec fn join_names(fs: Seq<LifecycleFlag>) -> Seq<char>
    decreases fs.len(),
{
    if fs.len() == 0 {
        Seq::empty()
    } else if fs.len() == 1 {
        fs[0].spec_name()
    } else {
        fs[0].spec_name() + seq![','] + join_names(fs.skip(1))
    }
}

/// The display text of a lifecycle bitmask: the active flag names joined
/// by commas, right-justified to ten characters.
pub open spec fn state_chars(m: u64) -> Seq<char> {
    rjust(join_names(spec_flags(m)), 10)
}

/// Only the five known bits decide the flag list: unrecognized higher
/// bits are silently ignored.
pub proof fn lemma_unknown_bits_ignored(m: u64)
    ensures
        spec_flags(m) == spec_flags(m & 31),
{
    assert((m & 1) == ((m & 31) & 1)) by (bit_vector);
    assert((m & 2) == ((m & 31) & 2)) by (bit_vector);
    assert((m & 4) == ((m & 31) & 4)) by (bit_vector);
    assert((m & 8) == ((m & 31) & 8)) by (bit_vector);
    assert((m & 16) == ((m & 31) & 16)) by (bit_vector);
}

/// An enclave's lifecycle state as the kernel reports it: an opaque
/// bitmask, decoded on demand into the active flags.
#[derive(Debug, Clone, Copy, PartialEq, Eq, Structural)]
pub struct EnclaveState(pub u64);

impl EnclaveState {
    /// The active flags, in declaration order.
    pub fn flags(&self) -> (r: Vec<LifecycleFlag>)
        ensures
            r@ == spec_flags(self.0),
    {
        let mut v: Vec<LifecycleFlag> = Vec::new();
        if self.0 & SGX_ENCL_INITIALIZED != 0 {
            v.push(LifecycleFlag::Initialized);
        }
        if self.0 & SGX_ENCL_DEBUG != 0 {
            v.push(LifecycleFlag::Debug);
        }
        if self.0 & SGX_ENCL_SECS_EVICTED != 0 {
            v.push(LifecycleFlag::SecsEvicted);
        }
        if self.0 & SGX_ENCL_SUSPEND != 0 {
            v.push(LifecycleFlag::Suspended);
        }
        if self.0 & SGX_ENCL_DEAD != 0 {
            v.push(LifecycleFlag::Dead);
        }
        proof {
            assert(v@ =~= spec_flags(self.0));
        }
        v
    }

    /// The display text of the state: active flag names joined by commas,
    /// right-justified to ten characters.
    pub fn render(&self) -> (r: String)
        ensures
            r@ == state_chars(self.0),
    {
        let fs = self.flags();
        let joined = join_from(&fs, 0);
        proof {
            assert(fs@.skip(0) =~= fs@);
        }
        pad_left(joined, 10)
    }
}

/// The names of `fs[i..]` joined by commas.
fn join_from(fs: &Vec<LifecycleFlag>, i: usize) -> (r: String)
    requires
        i <= fs@.len(),
    ensures
        r@ == join_names(fs@.skip(i as int)),
    decreases fs@.len() - i,
{
    if i == fs.len() {
        proof {
            assert(fs@.skip(i as int) =~= Seq::<LifecycleFlag>::empty());
        }
        String::new()
    } else if i + 1 == fs.len() {
        proof {
            assert(fs@.skip(i as int).len() == 1);
            assert(fs@.skip(i as int)[0] == fs@[i as int]);
        }
        String::from_str(fs[i].name())
    } else {
        let mut s = String::from_str(fs[i].name());
        s.append(",");
        let rest = join_from(fs, i + 1);
        s.append(rest.as_str());
        proof {
            reveal_strlit(",");
            assert(fs@.skip(i as int).skip(1) =~= fs@.skip(i as int + 1));
            assert(fs@.skip(i as int)[0] == fs@[i as int]);
            assert(s@ =~= join_names(fs@.skip(i as int)));
        }
        s
    }
}

} // verus!
