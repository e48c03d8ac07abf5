//! The cell types that go with the three-reserved-bit word layout of
//! [`crate::descriptor`], kept as their own self-contained cut.

use vstd::prelude::*;

verus! {

use core::sync::atomic::{AtomicU64, AtomicUsize, Ordering};
use crate::thread_local::ThreadId;

/// Number of low word bits reserved for the tag.
pub const NUM_RESERVED_BITS: usize = 3;

/// Bit position where the thread id starts.
pub const SEQ_NUMBER_LENGTH: usize = 50;

/// One 64-bit tagged word of the three-reserved-bit layout.
#[derive(Clone, Copy, Eq, PartialEq, Structural)]
pub struct MarkedPtr(u64);

impl View for MarkedPtr {
    type V = u64;

    closed spec fn view(&self) -> u64 {
        self.0
    }
}

impl MarkedPtr {
    pub fn new(tid: ThreadId, seq: SeqNumber) -> (r: Self)
        ensures
            r@ == (((tid@ as u64) << 50) | (seq@ << 3)),
    {
        let tid: u64 = (tid.as_u16() as u64) << (SEQ_NUMBER_LENGTH as u64);
        Self(tid | (seq.as_u64() << (NUM_RESERVED_BITS as u64)))
    }

    pub fn tid(&self) -> (r: ThreadId)
        ensures
            r@ == (self@ >> 50) as u16,
    {
        ThreadId::from_u16((self.0 >> (SEQ_NUMBER_LENGTH as u64)) as u16)
    }

    pub fn seq(&self) -> (r: SeqNumber)
        ensures
            r@ == (self@ & (((1u64 << 50) - 1) as u64)) >> 3,
    {
        proof {
            assert((1u64 << 50) >= 1) by (bit_vector);
        }
        let mask: u64 = (1u64 << (SEQ_NUMBER_LENGTH as u64)) - 1;
        let seq = (self.0 & mask) >> (NUM_RESERVED_BITS as u64);
        SeqNumber(seq)
    }

    pub fn with_mark(self, mark: usize) -> (r: Self)
        ensures
            r@ == self@ | ((mark & 3) as u64),
    {
        let bits = mark & NUM_RESERVED_BITS;
        let marked = self.0 | (bits as u64);
        Self(marked)
    }

    pub fn mark(&self) -> (r: usize)
        ensures
            r == (self@ & 3) as usize,
    {
        (self.0 & (NUM_RESERVED_BITS as u64)) as usize
    }

    pub fn into_usize(self) -> (r: usize)
        ensures
            r == self@ as usize,
    {
        self.0 as usize
    }

    pub fn from_usize(raw: usize) -> (r: Self)
        ensures
            r@ == raw as u64,
    {
        Self(raw as u64)
    }
}

/// A point-in-time sequence number read from a descriptor slot.
#[derive(Debug, PartialEq, Eq, Clone, Copy, Structural)]
pub struct SeqNumber(u64);

impl View for SeqNumber {
    type V = u64;

    closed spec fn view(&self) -> u64 {
        self.0
    }
}

impl SeqNumber {
    pub fn inc(&self) -> (r: SeqNumber)
        requires
            self@ < u64::MAX,
        ensures
            r@ == self@ + 1,
    {
        Self(self.0 + 1)
    }

    pub fn as_u64(&self) -> (r: u64)
        ensures
            r == self@,
    {
        self.0
    }

    pub fn as_usize(&self) -> (r: usize)
        ensures
            r == self@ as usize,
    {
        self.0 as usize
    }

    pub fn from_usize(v: usize) -> (r: Self)
        ensures
            r@ == v as u64,
    {
        Self(v as u64)
    }
}

/// A shared monotone counter; only the slot's owner advances it, any
/// helper may read it, so nothing is promised about a loaded value.
#[derive(Debug)]
pub struct SeqNumberGenerator(AtomicU64);

impl SeqNumberGenerator {
    pub fn new() -> Self {
        Self(AtomicU64::new(0))
    }

    /// Advances the counter by one, wrapping at the 64-bit limit, and
    /// returns the stored value.
    pub fn inc(&self) -> SeqNumber {
        let curr = self.0.fetch_add(1, Ordering::SeqCst).wrapping_add(1);
        SeqNumber(curr)
    }

    pub fn current(&self) -> SeqNumber {
        SeqNumber(self.0.load(Ordering::SeqCst))
    }
}

/// A single shared cell holding one word of this layout.
pub struct AtomicMarkedPtr(AtomicU64);

impl AtomicMarkedPtr {
    pub fn null() -> Self {
        Self(AtomicU64::new(0))
    }

    pub fn from_usize(ptr: usize) -> Self {
        Self(AtomicU64::new(ptr as u64))
    }

    pub fn into_inner(self) -> usize {
        self.0.into_inner() as usize
    }

    pub fn load(&self) -> MarkedPtr {
        MarkedPtr(self.0.load(Ordering::SeqCst))
    }

    pub fn store(&self, ptr: MarkedPtr) {
        self.0.store(ptr.0, Ordering::SeqCst);
    }

    pub fn compare_exchange(&self, expected: MarkedPtr, new: MarkedPtr) -> Result<
        MarkedPtr,
        MarkedPtr,
    > {
        let exchanged = self.0.compare_exchange(
            expected.0,
            new.0,
            Ordering::SeqCst,
            Ordering::SeqCst,
        );
        match exchanged {
            Ok(new) => Ok(MarkedPtr(new)),
            Err(err) => Err(MarkedPtr(err)),
        }
    }
}

/// A slot field naming another cell by its arena index.
pub struct PtrCell {
    address: AtomicUsize,
}

impl PtrCell {
    pub fn empty() -> Self {
        Self { address: AtomicUsize::new(0) }
    }

    pub fn store(&self, address: usize) {
        self.address.store(address, Ordering::SeqCst);
    }

    pub fn load(&self) -> usize {
        self.address.load(Ordering::SeqCst)
    }
}

} // verus!
