//! Per-slot sequence numbers.
//!
//! A descriptor slot is reused forever; only its sequence number tells a
//! helper whether the fields it snapshots still belong to the descriptor
//! instance it set out to help.

use vstd::prelude::*;

verus! {

use core::sync::atomic::{AtomicU64, Ordering};

/// Number of bits of a tagged word that carry the sequence number.
pub const SEQ_NUMBER_LENGTH: usize = 48;

/// A point-in-time sequence number read from a descriptor slot.
#[derive(Debug, PartialEq, Eq, Clone, Copy, Structural)]
pub struct SeqNumber(u64);

impl View for SeqNumber {
    type V = u64;

    closed spec fn view(&self) -> u64 {
        self.0
    }
}

impl SeqNumber {
    pub fn inc(&self) -> (r: SeqNumber)
        requires
            self@ < u64::MAX,
        ensures
            r@ == self@ + 1,
    {
        Self(self.0 + 1)
    }

    pub fn as_u64(&self) -> (r: u64)
        ensures
            r == self@,
    {
        self.0
    }

    pub fn from_u64(v: u64) -> (r: Self)
        ensures
            r@ == v,
    {
        Self(v)
    }

    pub fn as_usize(&self) -> (r: usize)
        ensures
            r == self@ as usize,
    {
        self.0 as usize
    }

    pub fn from_usize(v: usize) -> (r: Self)
        ensures
            r@ == v as u64,
    {
        Self(v as u64)
    }
}

/// The monotone counter owned by one per-thread descriptor slot.
///
/// Only the owning thread advances it; any thread may read it while
/// validating a snapshot, so the counter lives in an atomic cell. Nothing
/// can be promised about a loaded value: other threads observe it at
/// arbitrary points of the owner's protocol.
#[derive(Debug)]
pub struct SeqNumberGenerator(AtomicU64);

impl SeqNumberGenerator {
    pub fn new() -> Self {
        Self(AtomicU64::new(0))
    }

    /// Advances the counter by one, wrapping at the 64-bit limit, and
    /// returns the stored value.
    pub fn inc(&self, store_ordering: Ordering) -> SeqNumber
        requires
            store_ordering != Ordering::Acquire && store_ordering != Ordering::AcqRel,
    {
        let new = self.0.load(Ordering::Relaxed).wrapping_add(1);
        self.0.store(new, store_ordering);
        SeqNumber(new)
    }

    pub fn current(&self, ordering: Ordering) -> SeqNumber
        requires
            ordering != Ordering::Release && ordering != Ordering::AcqRel,
    {
        SeqNumber(self.0.load(ordering))
    }
}

} // verus!
