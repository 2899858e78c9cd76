//! The modifier-state snapshot: a value standing for a native-allocated
//! array of charcode-map records.
//!
//! The native library allocates the array and reports its address and
//! record count; the unverified shell owns the allocation and releases it
//! exactly once with the standard C free when the snapshot is dropped.
//! Here the snapshot is the pair of address and count, opaque to callers:
//! its only use is to be handed back to the set- and clear-modifier calls.

use vstd::prelude::*;

verus! {

/// A snapshot of the active keyboard modifiers, as the address and record
/// count of the native-allocated array that describes them.
pub struct CharcodeMapList {
    addr: usize,
    len: i32,
}

impl CharcodeMapList {
    /// A null address stands for the empty snapshot and always carries a
    /// count of zero; the count is never negative.
    #[verifier::type_invariant]
    spec fn inv(self) -> bool {
        self.len >= 0 && (self.addr == 0 ==> self.len == 0)
    }

    /// The address of the native array; zero for the empty snapshot.
    pub closed spec fn spec_addr(&self) -> usize {
        self.addr
    }

    /// The number of charcode-map records in the native array.
    pub closed spec fn spec_len(&self) -> i32 {
        self.len
    }

    /// The empty snapshot: a null address and a count of zero.
    pub fn empty() -> (r: CharcodeMapList)
        ensures
            r.spec_addr() == 0,
            r.spec_len() == 0,
    {
        CharcodeMapList { addr: 0, len: 0 }
    }

    /// Adopts the array the native library reported: its address and its
    /// record count.  A null address is only valid with a count of zero.
    pub fn from_raw_parts(addr: usize, len: i32) -> (r: CharcodeMapList)
        requires
            len >= 0,
            addr == 0 ==> len == 0,
        ensures
            r.spec_addr() == addr,
            r.spec_len() == len,
    {
        CharcodeMapList { addr, len }
    }

    /// The address of the native array, for forwarding to a native call.
    pub fn addr(&self) -> (r: usize)
        ensures
            r == self.spec_addr(),
    {
        self.addr
    }

    /// Whether dropping the snapshot must release a native array: exactly
    /// the non-empty snapshots hold one.  The empty snapshot's null
    /// address is never handed to the C free routine.
    pub fn needs_release(&self) -> (r: bool)
        ensures
            r <==> self.spec_addr() != 0,
    {
        self.addr != 0
    }

    /// The record count, for forwarding to a native call.
    pub fn len(&self) -> (r: i32)
        ensures
            r == self.spec_len(),
            r >= 0,
            self.spec_addr() == 0 ==> r == 0,
    {
        proof {
            use_type_invariant(&*self);
        }
        self.len
    }
}

} // verus!
