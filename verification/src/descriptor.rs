//! A tagged-word variant with three reserved low bits.
//!
//! `MarkedPtr` packs `[tid:14 | seq:47 | tag:3]`: the thread id starts at
//! bit 50 as in the live layout, but three low bits are reserved, so the
//! sequence field holds 47 bits.

use vstd::prelude::*;

verus! {

use core::sync::atomic::{AtomicU64, Ordering};
use crate::thread_local::ThreadId;

/// Number of low word bits reserved for the tag.
pub const NUM_RESERVED_BITS: usize = 3;

/// Bit position where the thread id starts.
pub const SEQ_NUMBER_LENGTH: usize = 50;

/// One 64-bit tagged word of this layout.
#[derive(Clone, Copy, Eq, PartialEq, Debug, Structural)]
pub struct MarkedPtr(u64);

impl View for MarkedPtr {
    type V = u64;

    closed spec fn view(&self) -> u64 {
        self.0
    }
}

impl MarkedPtr {
    pub fn new(tid: ThreadId, seq: SeqNumber) -> (r: Self)
        ensures
            r@ == (((tid@ as u64) << 50) | (seq@ << 3)),
    {
        let tid: u64 = (tid.as_u16() as u64) << (SEQ_NUMBER_LENGTH as u64);
        Self(tid | (seq.as_u64() << (NUM_RESERVED_BITS as u64)))
    }

    pub fn tid(&self) -> (r: ThreadId)
        ensures
            r@ == (self@ >> 50) as u16,
    {
        ThreadId::from_u16((self.0 >> (SEQ_NUMBER_LENGTH as u64)) as u16)
    }

    pub fn seq(&self) -> (r: SeqNumber)
        ensures
            r@ == (self@ & (((1u64 << 50) - 1) as u64)) >> 3,
    {
        proof {
            assert((1u64 << 50) >= 1) by (bit_vector);
        }
        let mask: u64 = (1u64 << (SEQ_NUMBER_LENGTH as u64)) - 1;
        let seq = (self.0 & mask) >> (NUM_RESERVED_BITS as u64);
        SeqNumber(seq)
    }

    pub fn with_mark(self, mark: usize) -> (r: Self)
        ensures
            r@ == self@ | ((mark & 3) as u64),
    {
        let bits = mark & NUM_RESERVED_BITS;
        let marked = self.0 | (bits as u64);
        Self(marked)
    }

    pub fn mark(&self) -> (r: usize)
        ensures
            r == (self@ & 3) as usize,
    {
        (self.0 & (NUM_RESERVED_BITS as u64)) as usize
    }

    pub fn into_usize(self) -> (r: usize)
        ensures
            r == self@ as usize,
    {
        self.0 as usize
    }

    pub fn from_usize(raw: usize) -> (r: Self)
        ensures
            r@ == raw as u64,
    {
        Self(raw as u64)
    }
}

/// The tag round-trip law of this layout: a 14-bit thread id and a
/// 47-bit sequence number survive packing, tagging and unpacking.
pub proof fn lemma_marked_ptr_round_trip(tid: u16, seq: u64, mark: usize)
    requires
        tid < 0x4000,
        seq < 0x8000_0000_0000,
        mark <= 2,
    ensures
        ((((tid as u64) << 50) | (seq << 3)) >> 50) as u16 == tid,
        ((((tid as u64) << 50) | (seq << 3)) & (((1u64 << 50) - 1) as u64)) >> 3 == seq,
        (((((tid as u64) << 50) | (seq << 3)) | ((mark & 3) as u64)) & 3) as usize == mark,
        (((((tid as u64) << 50) | (seq << 3)) | ((mark & 3) as u64)) >> 50) as u16 == tid,
        (((((tid as u64) << 50) | (seq << 3)) | ((mark & 3) as u64)) & (((1u64 << 50) - 1)
            as u64)) >> 3 == seq,
{
    assert({
        let w = ((tid as u64) << 50) | (seq << 3);
        let m = w | ((mark & 3) as u64);
        &&& (w >> 50) as u16 == tid
        &&& (w & (((1u64 << 50) - 1) as u64)) >> 3 == seq
        &&& (m & 3) as usize == mark
        &&& (m >> 50) as u16 == tid
        &&& (m & (((1u64 << 50) - 1) as u64)) >> 3 == seq
    }) by (bit_vector)
        requires
            tid < 0x4000,
            seq < 0x8000_0000_0000,
            mark <= 2,
    ;
}

/// A point-in-time sequence number read from a descriptor slot.
#[derive(Debug, PartialEq, Eq, Clone, Copy, Structural)]
pub struct SeqNumber(u64);

impl View for SeqNumber {
    type V = u64;

    closed spec fn view(&self) -> u64 {
        self.0
    }
}

impl SeqNumber {
    pub fn inc(&self) -> (r: SeqNumber)
        requires
            self@ < u64::MAX,
        ensures
            r@ == self@ + 1,
    {
        Self(self.0 + 1)
    }

    pub fn as_u64(&self) -> (r: u64)
        ensures
            r == self@,
    {
        self.0
    }

    pub fn from_u64(v: u64) -> (r: Self)
        ensures
            r@ == v,
    {
        Self(v)
    }

    pub fn as_usize(&self) -> (r: usize)
        ensures
            r == self@ as usize,
    {
        self.0 as usize
    }

    pub fn from_usize(v: usize) -> (r: Self)
        ensures
            r@ == v as u64,
    {
        Self(v as u64)
    }
}

/// A shared monotone counter; only the slot's owner advances it, any
/// helper may read it, so nothing is promised about a loaded value.
#[derive(Debug)]
pub struct SeqNumberGenerator(AtomicU64);

impl SeqNumberGenerator {
    pub fn new() -> Self {
        Self(AtomicU64::new(0))
    }

    /// Advances the counter by one, wrapping at the 64-bit limit, and
    /// returns the stored value.
    pub fn inc(&self) -> SeqNumber {
        let curr = self.0.fetch_add(1, Ordering::SeqCst).wrapping_add(1);
        SeqNumber(curr)
    }

    pub fn current(&self) -> SeqNumber {
        SeqNumber(self.0.load(Ordering::SeqCst))
    }
}

} // verus!
