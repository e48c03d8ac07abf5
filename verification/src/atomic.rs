//! The live tagged-word layer: `Bits`, the atomic cells that hold them,
//! and the conversion between user values and words.
//!
//! A word is laid out as `[tid:14 | seq:48 | tag:2]`. Tag 0 marks an
//! ordinary user value, tag 1 an RDCSS descriptor pointer and tag 2 an
//! N-word CAS descriptor pointer. Integer user values are shifted left by
//! the two reserved bits, so a value word always carries tag 0.

use vstd::prelude::*;

verus! {

use core::marker::PhantomData;
use core::sync::atomic::{AtomicU64, AtomicUsize, Ordering};
use crate::mwcas::{HELP_FUEL, Mcas};
use crate::sequence_number::{SEQ_NUMBER_LENGTH, SeqNumber};
use crate::thread_local::ThreadId;

/// Number of low word bits reserved for the tag.
pub const NUM_RESERVED_BITS: usize = 2;

/// The tag of an RDCSS descriptor pointer.
pub const RDCSS_MARK: usize = 1;

/// The tag of an N-word CAS descriptor pointer.
pub const CASN_MARK: usize = 2;

/// Mask keeping the 48 sequence bits a descriptor pointer can carry.
pub const SEQ_MASK: u64 = 0x0000_ffff_ffff_ffff;

/// Bound on the protocol's retry loops. It is far beyond any reachable
/// amount of contention; it exists so that every loop is provably
/// finite.
pub const RETRY_LIMIT: u64 = 0xffff_ffff_ffff_ffff;

/// One 64-bit tagged word.
#[derive(Clone, Copy, Eq, PartialEq, Debug, Structural)]
pub struct Bits(u64);

impl View for Bits {
    type V = u64;

    closed spec fn view(&self) -> u64 {
        self.0
    }
}

/// The word that points at the descriptor instance `(tid, seq)`, before
/// any tag is applied.
pub open spec fn spec_descriptor_ptr(tid: u16, seq: u64) -> u64 {
    ((tid as u64) << 50) | (seq << 2)
}

impl Bits {
    pub fn new_descriptor_ptr(tid: ThreadId, seq: SeqNumber) -> (r: Self)
        ensures
            r@ == spec_descriptor_ptr(tid@, seq@),
    {
        let t: u64 = (tid.as_u16() as u64) << ((SEQ_NUMBER_LENGTH + NUM_RESERVED_BITS) as u64);
        Self(t | (seq.as_u64() << (NUM_RESERVED_BITS as u64)))
    }

    pub fn tid(self) -> (r: ThreadId)
        ensures
            r@ == (self@ >> 50) as u16,
    {
        ThreadId::from_u16((self.0 >> ((SEQ_NUMBER_LENGTH + NUM_RESERVED_BITS) as u64)) as u16)
    }

    pub fn seq(self) -> (r: SeqNumber)
        ensures
            r@ == (self@ & (((1u64 << 50) - 1) as u64)) >> 2,
    {
        proof {
            assert((1u64 << 50) >= 1) by (bit_vector);
        }
        let mask: u64 = (1u64 << ((SEQ_NUMBER_LENGTH + NUM_RESERVED_BITS) as u64)) - 1;
        let seq = (self.0 & mask) >> (NUM_RESERVED_BITS as u64);
        SeqNumber::from_u64(seq)
    }

    pub fn with_mark(self, mark: usize) -> (r: Self)
        ensures
            r@ == self@ | ((mark & 3) as u64),
    {
        let bits = mark & (NUM_RESERVED_BITS + 1);
        Self(self.0 | (bits as u64))
    }

    pub fn mark(self) -> (r: usize)
        ensures
            r == (self@ & 3) as usize,
    {
        (self.0 & ((NUM_RESERVED_BITS + 1) as u64)) as usize
    }

    pub fn into_usize(self) -> (r: usize)
        ensures
            r == self@ as usize,
    {
        self.0 as usize
    }

    pub fn from_usize(raw: usize) -> (r: Self)
        ensures
            r@ == raw as u64,
    {
        Self(raw as u64)
    }
}

/// The tag round-trip law of the live encoding: packing a 14-bit thread
/// id and a 48-bit sequence number and then reading either field back, or
/// applying a tag and reading it back, recovers the originals, and an
/// untagged descriptor word always carries tag 0.
pub proof fn lemma_descriptor_ptr_round_trip(tid: u16, seq: u64, mark: usize)
    requires
        tid < 0x4000,
        seq < 0x1_0000_0000_0000,
        mark <= 2,
    ensures
        (spec_descriptor_ptr(tid, seq) >> 50) as u16 == tid,
        (spec_descriptor_ptr(tid, seq) & (((1u64 << 50) - 1) as u64)) >> 2 == seq,
        (spec_descriptor_ptr(tid, seq) & 3) as usize == 0,
        ((spec_descriptor_ptr(tid, seq) | ((mark & 3) as u64)) & 3) as usize == mark,
        ((spec_descriptor_ptr(tid, seq) | ((mark & 3) as u64)) >> 50) as u16 == tid,
        ((spec_descriptor_ptr(tid, seq) | ((mark & 3) as u64)) & (((1u64 << 50) - 1) as u64))
            >> 2 == seq,
{
    assert({
        let w = ((tid as u64) << 50) | (seq << 2);
        let m = w | ((mark & 3) as u64);
        &&& (w >> 50) as u16 == tid
        &&& (w & (((1u64 << 50) - 1) as u64)) >> 2 == seq
        &&& (w & 3) as usize == 0
        &&& (m & 3) as usize == mark
        &&& (m >> 50) as u16 == tid
        &&& (m & (((1u64 << 50) - 1) as u64)) >> 2 == seq
    }) by (bit_vector)
        requires
            tid < 0x4000,
            seq < 0x1_0000_0000_0000,
            mark <= 2,
    ;
}

/// Masking a slot's raw sequence counter keeps it inside the 48 bits a
/// descriptor pointer can carry.
pub proof fn lemma_seq_mask(x: u64)
    ensures
        x & SEQ_MASK < 0x1_0000_0000_0000,
{
    assert(x & 0x0000_ffff_ffff_ffff < 0x1_0000_0000_0000) by (bit_vector);
}

/// Relies on `core::sync::atomic::fence`: a memory fence returns no
/// value and, outside the `Relaxed` ordering its documentation rejects,
/// never panics; its ordering effect lies outside the verified model,
/// which promises nothing about the words concurrent loads observe.
pub assume_specification[ core::sync::atomic::fence ](order: Ordering)
    requires
        order != Ordering::Relaxed,
;

/// A single shared cell holding one tagged word. All mutation is an
/// atomic store or compare-and-swap; a loaded word is whatever some
/// thread last managed to publish, so no contract can pin it down.
pub struct AtomicBits(AtomicU64);

impl AtomicBits {
    pub fn empty() -> Self {
        Self(AtomicU64::new(0))
    }

    pub fn load(&self, ord: Ordering) -> Bits
        requires
            ord != Ordering::Release && ord != Ordering::AcqRel,
    {
        Bits(self.0.load(ord))
    }

    pub fn store(&self, word: Bits, ord: Ordering)
        requires
            ord != Ordering::Acquire && ord != Ordering::AcqRel,
    {
        self.0.store(word.0, ord);
    }

    pub fn compare_exchange(&self, expected: Bits, new: Bits) -> Result<Bits, Bits> {
        let exchanged = self.0.compare_exchange(
            expected.0,
            new.0,
            Ordering::SeqCst,
            Ordering::SeqCst,
        );
        match exchanged {
            Ok(new) => Ok(Bits(new)),
            Err(err) => Err(Bits(err)),
        }
    }
}

/// A slot field naming another cell. Cells live in the arena of their
/// [`crate::mwcas::Mcas`] domain, so a cell's address is its arena index
/// and the field is an ordinary atomic integer.
pub struct AtomicAddress<T> {
    address: AtomicUsize,
    _marker: PhantomData<T>,
}

impl<T> AtomicAddress<T> {
    pub fn empty() -> Self {
        Self { address: AtomicUsize::new(0), _marker: PhantomData }
    }

    pub fn store(&self, address: usize, ordering: Ordering)
        requires
            ordering != Ordering::Acquire && ordering != Ordering::AcqRel,
    {
        self.address.store(address, ordering);
    }

    pub fn load(&self, ordering: Ordering) -> usize
        requires
            ordering != Ordering::Release && ordering != Ordering::AcqRel,
    {
        self.address.load(ordering)
    }
}

/// A user value that fits a tagged word: convertible to and from a word
/// whose two low bits are free for the tag.
pub trait Word: Copy + Sized {
    /// Whether the value survives the encoding; the library never
    /// accepts a value outside this set.
    spec fn wf(self) -> bool;

    /// The word that stands for this value.
    spec fn spec_to_bits(self) -> Bits;

    /// The value a word stands for.
    spec fn spec_of_bits(b: Bits) -> Self;

    fn to_bits(self) -> (r: Bits)
        requires
            self.wf(),
        ensures
            r == self.spec_to_bits(),
    ;

    fn of_bits(b: Bits) -> (r: Self)
        ensures
            r == Self::spec_of_bits(b),
    ;
}

impl Word for usize {
    open spec fn wf(self) -> bool {
        (self as u64) < 0x4000_0000_0000_0000
    }

    closed spec fn spec_to_bits(self) -> Bits {
        Bits((self as u64) << 2)
    }

    open spec fn spec_of_bits(b: Bits) -> usize {
        (b@ >> 2) as usize
    }

    fn to_bits(self) -> (r: Bits) {
        Bits((self as u64) << (NUM_RESERVED_BITS as u64))
    }

    fn of_bits(b: Bits) -> (r: usize) {
        (b.0 >> (NUM_RESERVED_BITS as u64)) as usize
    }
}

/// A handle to one word cell of an [`Mcas`] domain, standing for a
/// value of type `T`. The cell itself lives in the domain's arena so
/// that any helping thread can reach it by index; the handle is a plain
/// copyable name for it.
pub struct Atomic<T: Word> {
    index: usize,
    _marker: PhantomData<T>,
}

impl<T: Word> Clone for Atomic<T> {
    fn clone(&self) -> (r: Self)
        ensures
            r == *self,
    {
        Atomic { index: self.index, _marker: PhantomData }
    }
}

impl<T: Word> Copy for Atomic<T> {

}

impl<T: Word> Atomic<T> {
    /// The arena index of the cell this handle names.
    pub closed spec fn cell_index(&self) -> int {
        self.index as int
    }

    /// Whether the handle names a cell of the given domain.
    pub closed spec fn wf(&self, m: &Mcas) -> bool {
        (self.index as int) < m.cells@.len()
    }

    /// A fresh cell of the domain holding the given value, or `None`
    /// when the domain's arena is exhausted.
    pub fn new(m: &Mcas, t: T) -> (r: Option<Atomic<T>>)
        requires
            t.wf(),
        ensures
            r matches Some(a) ==> a.wf(m),
    {
        let word = t.to_bits();
        match m.alloc_cell(word) {
            Some(index) => Some(Atomic { index, _marker: PhantomData }),
            None => None,
        }
    }

    pub fn index(&self) -> (r: usize)
        ensures
            r as int == self.cell_index(),
    {
        self.index
    }

    /// The value the cell currently stands for, read after helping any
    /// in-flight operation out of the way: the word behind the result
    /// never carries a descriptor tag.
    pub fn load(&self, m: &Mcas, tid: ThreadId) -> (t: T)
        requires
            m.wf(),
            self.wf(m),
            (tid@ as int) < crate::thread_local::MAX_THREADS,
        ensures
            exists|w: Bits|
                {
                    &&& #[trigger] T::spec_of_bits(w) == t
                    &&& (w@ & 3) as usize != RDCSS_MARK
                    &&& (w@ & 3) as usize != CASN_MARK
                },
    {
        let w = self.load_word(m, tid);
        proof {
            assert(T::spec_of_bits(w) == T::spec_of_bits(w));
        }
        T::of_bits(w)
    }

    /// The decided word in the cell: helps until the word carries
    /// neither the RDCSS nor the CASN descriptor tag.
    pub fn load_word(&self, m: &Mcas, tid: ThreadId) -> (w: Bits)
        requires
            m.wf(),
            self.wf(m),
            (tid@ as int) < crate::thread_local::MAX_THREADS,
        ensures
            (w@ & 3) as usize != RDCSS_MARK,
            (w@ & 3) as usize != CASN_MARK,
    {
        proof {
            crate::mwcas::lemma_mcas_wf(m);
        }
        let mut attempts: u64 = 0;
        while attempts < RETRY_LIMIT
            invariant
                m.wf(),
                self.wf(m),
                m.rdcss.wf(),
                m.casn.wf(),
                (tid@ as int) < crate::thread_local::MAX_THREADS,
            decreases RETRY_LIMIT - attempts,
        {
            attempts = attempts + 1;
            let curr = m.rdcss.read(&m.cells, &m.casn, self.index);
            if curr.mark() == CASN_MARK {
                m.casn.help(&m.cells, &m.rdcss, tid, curr, true, HELP_FUEL);
            } else {
                return curr;
            }
        }
        // The retry bound lies beyond any reachable contention; the
        // null value word keeps the no-descriptor guarantee if it were
        // ever hit.
        proof {
            assert(0u64 & 3 == 0) by (bit_vector);
        }
        Bits::from_usize(0)
    }
}

/// Integer values round-trip through the tagged encoding, and their
/// words always carry tag 0.
pub proof fn lemma_word_round_trip(v: usize)
    requires
        (v as u64) < 0x4000_0000_0000_0000,
    ensures
        <usize as Word>::spec_of_bits(v.spec_to_bits()) == v,
        v.spec_to_bits()@ & 3 == 0,
{
    assert((((v as u64) << 2) >> 2) as usize == v && ((v as u64) << 2) & 3 == 0) by (bit_vector)
        requires
            (v as u64) < 0x4000_0000_0000_0000,
    ;
}

} // verus!
