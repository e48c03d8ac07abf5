//! The two-word specialization of the descriptor data model: a per-
//! thread slot of exactly two entries and its own status encoding,
//! built on the three-reserved-bit word layout of [`crate::ptr`].

use vstd::prelude::*;

verus! {

use core::sync::atomic::{AtomicU64, Ordering};
use crate::descriptor::SeqNumber;
use crate::ptr::{AtomicMarkedPtr, PtrCell};

/// Status-field value of a descriptor whose outcome is still open.
pub const UNDECIDED: usize = 0;

/// Status-field value of a descriptor whose both words matched.
pub const SUCCEEDED: usize = 1;

/// Status-field value of a descriptor that met a mismatched word.
pub const FAILED: usize = 2;

/// Number of low status-cell bits that carry the state.
pub const NUM_STATUS_BITS: usize = 8;

/// A status-cell value of this layout: `[seq:56 | state:8]`.
#[derive(Clone, Copy, Eq, PartialEq, Structural)]
pub struct Cas2DescriptorStatus(u64);

impl View for Cas2DescriptorStatus {
    type V = u64;

    closed spec fn view(&self) -> u64 {
        self.0
    }
}

impl Cas2DescriptorStatus {
    pub fn undecided(seq_num: SeqNumber) -> (r: Self)
        ensures
            r@ == (seq_num@ << 8) | (UNDECIDED as u64),
    {
        let seq_num = seq_num.as_u64() << (NUM_STATUS_BITS as u64);
        Self(seq_num | (UNDECIDED as u64))
    }

    pub fn succeeded(seq_num: SeqNumber) -> (r: Self)
        ensures
            r@ == (seq_num@ << 8) | (SUCCEEDED as u64),
    {
        let seq_num = seq_num.as_u64() << (NUM_STATUS_BITS as u64);
        Self(seq_num | (SUCCEEDED as u64))
    }

    pub fn failed(seq_num: SeqNumber) -> (r: Self)
        ensures
            r@ == (seq_num@ << 8) | (FAILED as u64),
    {
        let seq_num = seq_num.as_u64() << (NUM_STATUS_BITS as u64);
        Self(seq_num | (FAILED as u64))
    }

    /// The failed status of the same descriptor instance.
    pub fn set_failed(self) -> (r: Cas2DescriptorStatus)
        ensures
            r@ == ((self@ >> 8) << 8) | (FAILED as u64),
    {
        Self::failed(self.seq_number())
    }

    pub fn seq_number(&self) -> (r: SeqNumber)
        ensures
            r@ == self@ >> 8,
            r@ < 0x0100_0000_0000_0000u64,
    {
        proof {
            assert(forall|x: u64| #[trigger] (x >> 8) < 0x0100_0000_0000_0000u64) by (bit_vector);
        }
        let seq_num = self.0 >> (NUM_STATUS_BITS as u64);
        SeqNumber::from_u64(seq_num)
    }

    pub fn status(&self) -> (r: usize)
        ensures
            r == (self@ & 0xff) as usize,
    {
        proof {
            assert((1u64 << 8) - 1 == 0xff) by (bit_vector);
        }
        (self.0 & ((1u64 << 8) - 1)) as usize
    }

    pub fn from_usize(status: usize) -> (r: Self)
        ensures
            r@ == status as u64,
    {
        Self(status as u64)
    }
}

/// The shared cell holding a [`Cas2DescriptorStatus`].
pub struct Cas2DescriptorStatusCell(AtomicU64);

impl Cas2DescriptorStatusCell {
    pub fn new() -> Self {
        Self(AtomicU64::new(0))
    }

    pub fn load(&self) -> Cas2DescriptorStatus {
        Cas2DescriptorStatus(self.0.load(Ordering::SeqCst))
    }

    pub fn store(&self, status: Cas2DescriptorStatus) {
        self.0.store(status.0, Ordering::Relaxed);
    }

    pub fn compare_exchange(
        &self,
        expected_status: Cas2DescriptorStatus,
        new_status: Cas2DescriptorStatus,
    ) -> Result<Cas2DescriptorStatus, Cas2DescriptorStatus> {
        let swapped = self.0.compare_exchange(
            expected_status.0,
            new_status.0,
            Ordering::SeqCst,
            Ordering::SeqCst,
        );
        match swapped {
            Ok(prev) => Ok(Cas2DescriptorStatus(prev)),
            Err(prev) => Err(Cas2DescriptorStatus(prev)),
        }
    }
}

/// One word of a two-word operation, resident in the owning thread's
/// slot: the target named by arena index, the expected word and the
/// replacement.
pub struct Entry {
    pub addr: PtrCell,
    pub exp: AtomicMarkedPtr,
    pub new: AtomicMarkedPtr,
}

impl Entry {
    pub fn empty() -> Self {
        Self { addr: PtrCell::empty(), exp: AtomicMarkedPtr::null(), new: AtomicMarkedPtr::null() }
    }
}

/// One thread's two-word descriptor slot.
pub struct PerThreadCas2Descriptor {
    pub entries: Vec<Entry>,
    pub status: Cas2DescriptorStatusCell,
}

impl PerThreadCas2Descriptor {
    /// The slot always holds exactly two entry cells.
    pub open spec fn wf(&self) -> bool {
        self.entries@.len() == 2
    }

    pub fn empty() -> (r: Self)
        ensures
            r.wf(),
    {
        let mut entries: Vec<Entry> = Vec::new();
        entries.push(Entry::empty());
        entries.push(Entry::empty());
        Self { status: Cas2DescriptorStatusCell::new(), entries }
    }

    /// Only the owning thread calls this: invalidates the current
    /// instance by publishing `UNDECIDED` under the next sequence
    /// number.
    pub fn inc_seq(&self) {
        let seq_num = self.status.load().seq_number().inc();
        self.status.store(Cas2DescriptorStatus::undecided(seq_num))
    }
}

} // verus!
