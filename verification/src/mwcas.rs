//! The N-word CAS core: per-thread CASN descriptor slots, the status
//! state machine, the cooperative `help` protocol and the public `cas2`
//! and `cas_n` entry points, together with the [`Mcas`] domain that owns
//! all process-wide state.
//!
//! A CASN descriptor instance `(tid, seq)` moves from `UNDECIDED(seq)`
//! to exactly one of `SUCCEEDED(seq)` or `FAILED(seq)`; the compare-and-
//! swap on the status cell is the linearization point, and any helper
//! may drive every transition idempotently.

use vstd::prelude::*;

verus! {

use core::sync::atomic::{AtomicUsize, Ordering};
use crate::atomic::{
    AtomicAddress,
    AtomicBits,
    Bits,
    CASN_MARK,
    RETRY_LIMIT,
    SEQ_MASK,
    Word,
    lemma_descriptor_ptr_round_trip,
    lemma_seq_mask,
};
use crate::rdcss::RDCSSDescriptor;
use crate::sequence_number::SeqNumber;
use crate::thread_local::{
    MAX_THREADS,
    RegisteredThreadId,
    ThreadId,
    ThreadLocal,
    ThreadRegistry,
};

pub use crate::atomic::Atomic;

/// Largest number of words one `cas_n` may cover.
pub const MAX_ENTRIES: usize = 8;

/// Depth to which a helper helps the foreign operations that block its
/// own; beyond it the helper keeps spinning and the foreign owner or
/// other helpers finish the work.
pub const HELP_FUEL: u64 = 64;

/// Status-field value of a descriptor whose outcome is still open.
pub const UNDECIDED: usize = 0;

/// Status-field value of a descriptor whose every word matched.
pub const SUCCEEDED: usize = 1;

/// Status-field value of a descriptor that met a mismatched word.
pub const FAILED: usize = 2;

/// Number of low status-cell bits that carry the state.
pub const NUM_STATUS_BITS: usize = 8;

/// A status-cell value: `[seq:56 | state:8]`.
#[derive(Clone, Copy, Eq, PartialEq, Structural)]
pub struct CasNDescriptorStatus(u64);

impl View for CasNDescriptorStatus {
    type V = u64;

    closed spec fn view(&self) -> u64 {
        self.0
    }
}

impl CasNDescriptorStatus {
    pub fn undecided(seq_num: SeqNumber) -> (r: Self)
        ensures
            r@ == (seq_num@ << 8) | (UNDECIDED as u64),
    {
        let seq_num = seq_num.as_u64() << (NUM_STATUS_BITS as u64);
        Self(seq_num | (UNDECIDED as u64))
    }

    pub fn succeeded(seq_num: SeqNumber) -> (r: Self)
        ensures
            r@ == (seq_num@ << 8) | (SUCCEEDED as u64),
    {
        let seq_num = seq_num.as_u64() << (NUM_STATUS_BITS as u64);
        Self(seq_num | (SUCCEEDED as u64))
    }

    pub fn failed(seq_num: SeqNumber) -> (r: Self)
        ensures
            r@ == (seq_num@ << 8) | (FAILED as u64),
    {
        let seq_num = seq_num.as_u64() << (NUM_STATUS_BITS as u64);
        Self(seq_num | (FAILED as u64))
    }

    /// The failed status of the same descriptor instance.
    pub fn set_failed(self) -> (r: CasNDescriptorStatus)
        ensures
            r@ == ((self@ >> 8) << 8) | (FAILED as u64),
    {
        Self::failed(self.seq_number())
    }

    pub fn seq_number(self) -> (r: SeqNumber)
        ensures
            r@ == self@ >> 8,
            r@ < 0x0100_0000_0000_0000u64,
    {
        proof {
            assert(forall|x: u64| #[trigger] (x >> 8) < 0x0100_0000_0000_0000u64) by (bit_vector);
        }
        let seq_num = self.0 >> (NUM_STATUS_BITS as u64);
        SeqNumber::from_u64(seq_num)
    }

    pub fn status(self) -> (r: usize)
        ensures
            r == (self@ & 0xff) as usize,
    {
        proof {
            assert((1u64 << 8) - 1 == 0xff) by (bit_vector);
        }
        (self.0 & ((1u64 << (NUM_STATUS_BITS as u64)) - 1)) as usize
    }

    pub fn from_usize(status: usize) -> (r: Self)
        ensures
            r@ == status as u64,
    {
        Self(status as u64)
    }
}

/// The status-cell encoding round-trips: for a sequence number below
/// `2^56` and a state below `2^8`, packing and unpacking recover both.
pub proof fn lemma_status_round_trip(seq: u64, state: u64)
    requires
        seq < 0x0100_0000_0000_0000,
        state < 0x100,
    ensures
        ((seq << 8) | state) >> 8 == seq,
        (((seq << 8) | state) & 0xff) == state,
{
    assert(((seq << 8) | state) >> 8 == seq && (((seq << 8) | state) & 0xff) == state)
        by (bit_vector)
        requires
            seq < 0x0100_0000_0000_0000,
            state < 0x100,
    ;
}

/// The shared cell holding a [`CasNDescriptorStatus`]; a loaded value is
/// whatever transition some helper last published.
pub struct AtomicCasNDescriptorStatus(core::sync::atomic::AtomicU64);

impl AtomicCasNDescriptorStatus {
    pub fn new() -> Self {
        Self(core::sync::atomic::AtomicU64::new(0))
    }

    pub fn load(&self, ordering: Ordering) -> CasNDescriptorStatus
        requires
            ordering != Ordering::Release && ordering != Ordering::AcqRel,
    {
        CasNDescriptorStatus(self.0.load(ordering))
    }

    pub fn store(&self, status: CasNDescriptorStatus, ordering: Ordering)
        requires
            ordering != Ordering::Acquire && ordering != Ordering::AcqRel,
    {
        self.0.store(status.0, ordering);
    }

    pub fn compare_exchange(
        &self,
        expected_status: CasNDescriptorStatus,
        new_status: CasNDescriptorStatus,
    ) -> Result<CasNDescriptorStatus, CasNDescriptorStatus> {
        let swapped = self.0.compare_exchange(
            expected_status.0,
            new_status.0,
            Ordering::SeqCst,
            Ordering::SeqCst,
        );
        match swapped {
            Ok(prev) => Ok(CasNDescriptorStatus(prev)),
            Err(prev) => Err(CasNDescriptorStatus(prev)),
        }
    }
}

/// One word of a CASN operation: the arena index of the target cell,
/// the word expected there and the word to install on success.
#[derive(Clone, Copy, Eq, PartialEq, Structural)]
pub struct Entry {
    pub addr: usize,
    pub exp: Bits,
    pub new: Bits,
}

/// Whether the first `n` entries are ordered by target address.
pub open spec fn sorted_prefix(s: Seq<Entry>, n: int) -> bool {
    forall|a: int, b: int| #![trigger s[a], s[b]] 0 <= a < b < n ==> s[a].addr <= s[b].addr
}

/// Whether a run of entries is ordered by target address.
pub open spec fn entries_sorted(s: Seq<Entry>) -> bool {
    sorted_prefix(s, s.len() as int)
}

/// Sorts entries by target address with a stable insertion sort, keeping
/// exactly the given entries; equal addresses keep their order, so a
/// doubled address stays doubled.
fn sort_entries(entries: &mut Vec<Entry>)
    ensures
        final(entries)@.len() == old(entries)@.len(),
        entries_sorted(final(entries)@),
        final(entries)@.to_multiset() == old(entries)@.to_multiset(),
{
    let ghost orig = entries@;
    let mut i: usize = 1;
    while i < entries.len()
        invariant
            1 <= i,
            entries@.len() == orig.len(),
            entries@.to_multiset() == orig.to_multiset(),
            sorted_prefix(entries@, i as int),
        decreases entries@.len() - i,
    {
        let ghost before = entries@;
        let e = entries.remove(i);
        let ghost removed = entries@;
        proof {
            before.remove_ensures(i as int);
            assert(sorted_prefix(removed, i as int));
        }
        let mut j: usize = 0;
        while j < i && entries[j].addr <= e.addr
            invariant
                j <= i,
                i < before.len(),
                entries@ == removed,
                removed == before.remove(i as int),
                removed.len() + 1 == before.len(),
                forall|k: int| #![trigger removed[k]] 0 <= k < j ==> removed[k].addr <= e.addr,
            decreases i - j,
        {
            j = j + 1;
        }
        let ghost jj = j as int;
        entries.insert(j, e);
        proof {
            removed.insert_ensures(jj, e);
            broadcast use vstd::seq_lib::group_to_multiset_ensures;

            assert(before.to_multiset().contains(e));
            assert(removed.to_multiset() =~= before.to_multiset().remove(e));
            assert(entries@.to_multiset() =~= removed.to_multiset().insert(e));
            assert(entries@.to_multiset() =~= before.to_multiset());
            assert(entries@.to_multiset() == orig.to_multiset());
            assert forall|a: int, b: int| 0 <= a < b < i + 1 implies entries@[a].addr
                <= entries@[b].addr by {
                if b < jj {
                    assert(entries@[a] == removed[a] && entries@[b] == removed[b]);
                } else if b == jj {
                    assert(entries@[a] == removed[a] && entries@[b] == e);
                } else if a < jj {
                    assert(entries@[a] == removed[a] && entries@[b] == removed[b - 1]);
                } else if a == jj {
                    assert(entries@[a] == e && entries@[b] == removed[b - 1]);
                    assert(removed[jj].addr > e.addr || jj == b - 1);
                } else {
                    assert(entries@[a] == removed[a - 1] && entries@[b] == removed[b - 1]);
                }
            }
            assert(sorted_prefix(entries@, i as int + 1));
        }
        i = i + 1;
    }
}

/// What the word handed back by one installation attempt means for the
/// installing pass.
pub enum InstallOutcome {
    /// The descriptor stands in the word, or the word matched the
    /// expected value: advance to the next entry.
    Installed,
    /// A different CASN operation holds the word: help it or back off,
    /// then retry.
    Blocked,
    /// The word differs from the entry's expected value: the whole
    /// operation decides failure.
    Mismatch,
}

/// Classifies the word an installation attempt got back, exactly:
/// the descriptor's own pointer means some pass already installed it;
/// any other tag-2 pointer blocks; of the remaining words the expected
/// one means success and any other refutes the expected value.
pub fn classify_install(swapped: Bits, entry_exp: Bits, descriptor_ptr: Bits) -> (o:
    InstallOutcome)
    ensures
        (o is Installed) <==> (swapped == descriptor_ptr || ((swapped@ & 3) as usize != CASN_MARK
            && swapped == entry_exp)),
        (o is Blocked) <==> (swapped != descriptor_ptr && (swapped@ & 3) as usize == CASN_MARK),
        (o is Mismatch) <==> (swapped != descriptor_ptr && (swapped@ & 3) as usize != CASN_MARK
            && swapped != entry_exp),
{
    if swapped == descriptor_ptr {
        InstallOutcome::Installed
    } else if swapped.mark() == CASN_MARK {
        InstallOutcome::Blocked
    } else if swapped != entry_exp {
        InstallOutcome::Mismatch
    } else {
        InstallOutcome::Installed
    }
}

/// The slot-resident image of one [`Entry`], readable by any helper.
pub struct AtomicEntry {
    addr: AtomicAddress<AtomicBits>,
    exp: AtomicBits,
    new: AtomicBits,
}

impl AtomicEntry {
    pub fn empty() -> Self {
        Self { addr: AtomicAddress::empty(), exp: AtomicBits::empty(), new: AtomicBits::empty() }
    }

    pub fn load(&self) -> Entry {
        let addr = self.addr.load(Ordering::Relaxed);
        let exp = self.exp.load(Ordering::Relaxed);
        let new = self.new.load(Ordering::Relaxed);
        Entry { addr, exp, new }
    }

    pub fn store(&self, e: &Entry) {
        self.addr.store(e.addr, Ordering::Relaxed);
        self.new.store(e.new, Ordering::Relaxed);
        self.exp.store(e.exp, Ordering::Relaxed);
    }
}

/// One thread's CASN descriptor slot: the current instance's entries,
/// their count and the status cell whose sequence field names the
/// instance.
pub struct ThreadCasNDescriptor {
    pub entries: Vec<AtomicEntry>,
    pub num_entries: AtomicUsize,
    pub status: AtomicCasNDescriptorStatus,
}

impl ThreadCasNDescriptor {
    /// A slot always holds `MAX_ENTRIES` entry cells.
    pub open spec fn wf(&self) -> bool {
        self.entries@.len() == MAX_ENTRIES
    }

    pub fn new() -> (r: Self)
        ensures
            r.wf(),
    {
        let mut entries: Vec<AtomicEntry> = Vec::new();
        let mut i: usize = 0;
        while i < MAX_ENTRIES
            invariant
                i <= MAX_ENTRIES,
                entries@.len() == i,
            decreases MAX_ENTRIES - i,
        {
            entries.push(AtomicEntry::empty());
            i = i + 1;
        }
        Self {
            status: AtomicCasNDescriptorStatus::new(),
            num_entries: AtomicUsize::new(0),
            entries,
        }
    }

    /// Only the owning thread calls this: invalidates the current
    /// instance by publishing `UNDECIDED` under the next sequence number.
    pub fn inc_seq(&self) {
        let seq_num = self.status.load(Ordering::Relaxed).seq_number().inc();
        self.status.store(CasNDescriptorStatus::undecided(seq_num), Ordering::SeqCst)
    }

    /// Copies the current instance out of the slot, validating the
    /// sequence number before and after the reads; any disagreement, or
    /// an entry count no instance can have, means the owner has moved on
    /// and yields `None`.
    pub fn try_snapshot<'a>(&'a self, seq_num: SeqNumber) -> (r: Option<
        ThreadCasNDescriptorSnapshot<'a>,
    >)
        requires
            self.wf(),
        ensures
            r matches Some(s) ==> 2 <= s.entries@.len() <= MAX_ENTRIES,
    {
        let current_seq_num = self.status.load(Ordering::SeqCst).seq_number();
        if current_seq_num == seq_num {
            let num_entries = self.num_entries.load(Ordering::Relaxed);
            if num_entries < 2 || num_entries > MAX_ENTRIES {
                return None;
            }
            let mut entries: Vec<Entry> = Vec::new();
            let mut i: usize = 0;
            while i < num_entries
                invariant
                    self.wf(),
                    i <= num_entries,
                    num_entries <= MAX_ENTRIES,
                    entries@.len() == i,
                decreases num_entries - i,
            {
                entries.push(self.entries[i].load());
                i = i + 1;
            }
            core::sync::atomic::fence(Ordering::Acquire);
            if seq_num == self.status.load(Ordering::SeqCst).seq_number() {
                Some(ThreadCasNDescriptorSnapshot { entries, status: &self.status })
            } else {
                None
            }
        } else {
            None
        }
    }

    /// Only the owning thread calls this: sorts the entries by target
    /// address and publishes them in the slot.
    pub fn store_entries(&self, entries: &mut Vec<Entry>)
        requires
            self.wf(),
            old(entries)@.len() <= MAX_ENTRIES,
        ensures
            final(entries)@.len() == old(entries)@.len(),
            entries_sorted(final(entries)@),
            final(entries)@.to_multiset() == old(entries)@.to_multiset(),
    {
        sort_entries(entries);
        let mut i: usize = 0;
        while i < entries.len()
            invariant
                self.wf(),
                i <= entries@.len(),
                entries@.len() <= MAX_ENTRIES,
                entries@.len() == old(entries)@.len(),
                entries_sorted(entries@),
                entries@.to_multiset() == old(entries)@.to_multiset(),
            decreases entries@.len() - i,
        {
            self.entries[i].store(&entries[i]);
            i = i + 1;
        }
        self.num_entries.store(entries.len(), Ordering::Relaxed);
    }
}

/// The table of every thread's CASN descriptor slot.
pub struct CasNDescriptor {
    map: ThreadLocal<ThreadCasNDescriptor>,
}

impl CasNDescriptor {
    pub closed spec fn wf(&self) -> bool {
        &&& self.map@.len() == MAX_THREADS
        &&& forall|i: int| 0 <= i < self.map@.len() ==> (#[trigger] self.map@[i]).wf()
    }

    pub fn new() -> (r: Self)
        ensures
            r.wf(),
    {
        let mut slots: Vec<ThreadCasNDescriptor> = Vec::new();
        let mut i: usize = 0;
        while i < MAX_THREADS
            invariant
                i <= MAX_THREADS,
                slots@.len() == i,
                forall|k: int| 0 <= k < i ==> (#[trigger] slots@[k]).wf(),
            decreases MAX_THREADS - i,
        {
            slots.push(ThreadCasNDescriptor::new());
            i = i + 1;
        }
        Self { map: ThreadLocal::new(slots) }
    }

    /// The slot of the given thread, when the id is in range.
    pub fn slot_for_thread(&self, tid: ThreadId) -> (r: Option<&ThreadCasNDescriptor>)
        requires
            self.wf(),
        ensures
            r matches Some(s) ==> s.wf(),
            r is Some <==> (tid@ as int) < MAX_THREADS,
    {
        self.map.get_for_thread(tid)
    }

    /// The status cell of the slot an RDCSS descriptor names by table
    /// index; indices outside the table yield `None`.
    pub fn status_cell(&self, index: usize) -> (r: Option<&AtomicCasNDescriptorStatus>)
        requires
            self.wf(),
    {
        if index < MAX_THREADS {
            match self.map.get_for_thread(ThreadId::from_u16(index as u16)) {
                Some(slot) => Some(&slot.status),
                None => None,
            }
        } else {
            None
        }
    }

    /// Validates and copies the instance a descriptor pointer names.
    pub fn try_snapshot<'a>(&'a self, descriptor_ptr: Bits) -> (r: Option<
        ThreadCasNDescriptorSnapshot<'a>,
    >)
        requires
            self.wf(),
        ensures
            r matches Some(s) ==> 2 <= s.entries@.len() <= MAX_ENTRIES,
    {
        match self.slot_for_thread(descriptor_ptr.tid()) {
            Some(slot) => slot.try_snapshot(descriptor_ptr.seq()),
            None => None,
        }
    }

    /// Publishes a fresh CASN descriptor in the calling thread's slot —
    /// entries sorted by target address, guarded by a sequence bump on
    /// either side of the writes — and returns the tag-2 pointer to it.
    pub fn make_descriptor(&self, tid: ThreadId, entries: &mut Vec<Entry>) -> (r: Bits)
        requires
            self.wf(),
            (tid@ as int) < MAX_THREADS,
            2 <= old(entries)@.len() <= MAX_ENTRIES,
        ensures
            (r@ & 3) as usize == CASN_MARK,
            (r@ >> 50) as u16 == tid@,
            final(entries)@.len() == old(entries)@.len(),
            entries_sorted(final(entries)@),
            final(entries)@.to_multiset() == old(entries)@.to_multiset(),
    {
        let slot = self.slot_for_thread(tid).unwrap();

        slot.inc_seq();
        core::sync::atomic::fence(Ordering::Release);
        slot.store_entries(entries);
        slot.inc_seq();

        let current_seq_num = slot.status.load(Ordering::SeqCst).seq_number();
        let masked = SeqNumber::from_u64(current_seq_num.as_u64() & SEQ_MASK);
        proof {
            lemma_seq_mask(current_seq_num@);
            lemma_descriptor_ptr_round_trip(tid@, current_seq_num@ & SEQ_MASK, CASN_MARK);
        }
        Bits::new_descriptor_ptr(tid, masked).with_mark(CASN_MARK)
    }

    /// Drives the operation a tag-2 descriptor pointer names to its
    /// decision and finalizes every target word, on behalf of any
    /// thread.
    ///
    /// Phase 1 installs the descriptor into each target through
    /// [`RDCSSDescriptor::rdcss`], conditional on the status still being
    /// `UNDECIDED`; a blocking foreign descriptor is helped in turn once
    /// backoff saturates, to bounded depth, and a word that differs from
    /// its expected value decides failure. The status cell is then moved
    /// to the outcome, and phase 2 swaps every installed pointer to the
    /// new or the expected word. Returns whether the operation
    /// succeeded; `false` also covers a stale descriptor met while
    /// helping.
    pub fn help(
        &self,
        cells: &Vec<AtomicBits>,
        rdcss: &RDCSSDescriptor,
        self_tid: ThreadId,
        descriptor_ptr: Bits,
        help_other: bool,
        fuel: u64,
    ) -> (r: bool)
        requires
            self.wf(),
            rdcss.wf(),
            (self_tid@ as int) < MAX_THREADS,
        decreases fuel,
    {
        let descriptor_seq = descriptor_ptr.seq();

        let descriptor_snapshot = match self.try_snapshot(descriptor_ptr) {
            Some(s) => s,
            None => { return false; },
        };
        let descriptor_current_status = match descriptor_snapshot.try_read_status(
            descriptor_ptr,
        ) {
            Some(s) => s,
            None => { return false; },
        };

        if descriptor_current_status.status() == UNDECIDED {
            let mut new_status = CasNDescriptorStatus::succeeded(descriptor_seq);
            let start: usize = if help_other {
                1
            } else {
                0
            };
            let backoff = crossbeam_utils::Backoff::new();
            let mut i: usize = start;
            let mut mismatch = false;
            let mut gave_up = false;
            while i < descriptor_snapshot.entries.len() && !mismatch && !gave_up
                invariant
                    self.wf(),
                    rdcss.wf(),
                    (self_tid@ as int) < MAX_THREADS,
                    i <= descriptor_snapshot.entries@.len(),
                decreases descriptor_snapshot.entries@.len() - i,
            {
                let entry = descriptor_snapshot.entries[i];
                let mut installed = false;
                let mut attempts: u64 = 0;
                while !installed && !mismatch && attempts < RETRY_LIMIT
                    invariant
                        self.wf(),
                        rdcss.wf(),
                        (self_tid@ as int) < MAX_THREADS,
                        attempts <= RETRY_LIMIT,
                    decreases RETRY_LIMIT - attempts,
                {
                    attempts = attempts + 1;
                    if entry.addr >= cells.len() {
                        // A target outside the arena cannot belong to a
                        // live instance: decide failure like any other
                        // mismatch.
                        mismatch = true;
                    } else {
                        let swapped = rdcss.rdcss(
                            cells,
                            self,
                            self_tid,
                            descriptor_ptr.tid(),
                            entry.addr,
                            descriptor_current_status,
                            entry.exp,
                            descriptor_ptr,
                        );
                        match classify_install(swapped, entry.exp, descriptor_ptr) {
                            InstallOutcome::Installed => {
                                installed = true;
                            },
                            InstallOutcome::Blocked => {
                                if fuel > 0 && backoff.is_completed() {
                                    self.help(cells, rdcss, self_tid, swapped, true, fuel - 1);
                                } else {
                                    backoff.spin();
                                }
                            },
                            InstallOutcome::Mismatch => {
                                mismatch = true;
                            },
                        }
                    }
                }
                if !installed && !mismatch {
                    gave_up = true;
                }
                i = i + 1;
            }
            if gave_up {
                return false;
            }
            if mismatch {
                new_status = new_status.set_failed();
            }
            descriptor_snapshot.cas_status(descriptor_current_status, new_status);
        }

        let descriptor_current_status = match descriptor_snapshot.try_read_status(
            descriptor_ptr,
        ) {
            Some(s) => s,
            None => { return false; },
        };

        let succeeded = descriptor_current_status.status() == SUCCEEDED;
        let mut j: usize = 0;
        while j < descriptor_snapshot.entries.len()
            invariant
                j <= descriptor_snapshot.entries@.len(),
            decreases descriptor_snapshot.entries@.len() - j,
        {
            let entry = descriptor_snapshot.entries[j];
            let new = if succeeded {
                entry.new
            } else {
                entry.exp
            };
            if entry.addr < cells.len() {
                let _ = cells[entry.addr].compare_exchange(descriptor_ptr, new);
            }
            j = j + 1;
        }
        succeeded
    }
}

/// A helper's validated copy of a descriptor instance, together with a
/// borrow of the owner's status cell.
pub struct ThreadCasNDescriptorSnapshot<'a> {
    pub entries: Vec<Entry>,
    pub status: &'a AtomicCasNDescriptorStatus,
}

impl<'a> ThreadCasNDescriptorSnapshot<'a> {
    /// Reads the status cell and keeps the value only while it still
    /// belongs to the instance the descriptor pointer names.
    pub fn try_read_status(&self, descriptor_ptr: Bits) -> (r: Option<CasNDescriptorStatus>)
        ensures
            r matches Some(s) ==> s@ >> 8 == (descriptor_ptr@ & (((1u64 << 50) - 1) as u64))
                >> 2,
    {
        let status = self.status.load(Ordering::SeqCst);
        if status.seq_number() == descriptor_ptr.seq() {
            Some(status)
        } else {
            None
        }
    }

    /// Tries to move the instance from `UNDECIDED` to the given outcome;
    /// a lost race is fine, some helper decided first.
    pub fn cas_status(&self, expected_status: CasNDescriptorStatus, new_status: CasNDescriptorStatus)
        requires
            (expected_status@ & 0xff) as usize == UNDECIDED,
    {
        let current_status = self.status.load(Ordering::SeqCst);
        if current_status == expected_status {
            let _ = self.status.compare_exchange(expected_status, new_status);
        }
    }
}

/// One MCAS domain: the arena of word cells, the thread registry and
/// the two per-thread descriptor tables. Everything the protocol
/// touches lives here, created once by the caller and shared by
/// reference among its threads.
pub struct Mcas {
    pub(crate) cells: Vec<AtomicBits>,
    pub(crate) next_cell: AtomicUsize,
    pub(crate) registry: ThreadRegistry,
    pub(crate) rdcss: RDCSSDescriptor,
    pub(crate) casn: CasNDescriptor,
}

/// Well-formedness of a domain opens up into well-formedness of its
/// parts.
pub(crate) proof fn lemma_mcas_wf(m: &Mcas)
    requires
        m.wf(),
    ensures
        m.registry.wf(),
        m.rdcss.wf(),
        m.casn.wf(),
{
}

impl Mcas {
    pub closed spec fn wf(&self) -> bool {
        &&& self.registry.wf()
        &&& self.rdcss.wf()
        &&& self.casn.wf()
    }

    /// Number of word cells the domain can hand out.
    pub closed spec fn capacity(&self) -> int {
        self.cells@.len() as int
    }

    /// A domain with room for `capacity` atomic words.
    pub fn new(capacity: usize) -> (r: Self)
        ensures
            r.wf(),
            r.capacity() == capacity,
    {
        let mut cells: Vec<AtomicBits> = Vec::new();
        let mut i: usize = 0;
        while i < capacity
            invariant
                i <= capacity,
                cells@.len() == i,
            decreases capacity - i,
        {
            cells.push(AtomicBits::empty());
            i = i + 1;
        }
        Mcas {
            cells,
            next_cell: AtomicUsize::new(0),
            registry: ThreadRegistry::new(),
            rdcss: RDCSSDescriptor::new(),
            casn: CasNDescriptor::new(),
        }
    }

    /// Claims a thread id for the calling thread; `None` once all
    /// registry slots are taken.
    pub fn register(&self) -> (r: Option<RegisteredThreadId>)
        requires
            self.wf(),
        ensures
            r matches Some(id) ==> (id@ as int) < MAX_THREADS,
    {
        ThreadId::register(&self.registry)
    }

    /// Gives a thread id back to the registry.
    pub fn deregister(&self, id: RegisteredThreadId)
        requires
            self.wf(),
    {
        self.registry.release(id)
    }

    /// Publishes a CASN descriptor for the given entries in the calling
    /// thread's slot and returns the tag-2 pointer to it.
    pub fn make_descriptor(&self, tid: ThreadId, entries: &mut Vec<Entry>) -> (r: Bits)
        requires
            self.wf(),
            (tid@ as int) < MAX_THREADS,
            2 <= old(entries)@.len() <= MAX_ENTRIES,
        ensures
            (r@ & 3) as usize == CASN_MARK,
            (r@ >> 50) as u16 == tid@,
            final(entries)@.len() == old(entries)@.len(),
            entries_sorted(final(entries)@),
            final(entries)@.to_multiset() == old(entries)@.to_multiset(),
    {
        self.casn.make_descriptor(tid, entries)
    }

    /// Drives the operation of a tag-2 descriptor pointer on behalf of
    /// the calling thread; see [`CasNDescriptor::help`]. Any number of
    /// invocations, from any thread, leave a decided descriptor's
    /// outcome and its words unchanged.
    pub fn help(&self, tid: ThreadId, descriptor_ptr: Bits, help_other: bool) -> bool
        requires
            self.wf(),
            (tid@ as int) < MAX_THREADS,
    {
        self.casn.help(&self.cells, &self.rdcss, tid, descriptor_ptr, help_other, HELP_FUEL)
    }

    /// Hands out a fresh cell holding the given word; `None` when the
    /// arena is exhausted.
    pub(crate) fn alloc_cell(&self, word: Bits) -> (r: Option<usize>)
        ensures
            r matches Some(i) ==> i < self.cells@.len(),
    {
        let index = self.next_cell.fetch_add(1, Ordering::SeqCst);
        if index < self.cells.len() {
            self.cells[index].store(word, Ordering::SeqCst);
            Some(index)
        } else {
            None
        }
    }
}

/// Atomically replaces the two words at `addr0` and `addr1` with `new0`
/// and `new1` when they simultaneously hold `exp0` and `exp1`; the
/// status transition of the descriptor built here is the linearization
/// point. The caller passes its registered thread id.
pub fn cas2<T0: Word, T1: Word>(
    m: &Mcas,
    tid: ThreadId,
    addr0: &Atomic<T0>,
    addr1: &Atomic<T1>,
    exp0: T0,
    exp1: T1,
    new0: T0,
    new1: T1,
) -> bool
    requires
        m.wf(),
        (tid@ as int) < MAX_THREADS,
        addr0.wf(m),
        addr1.wf(m),
        exp0.wf(),
        exp1.wf(),
        new0.wf(),
        new1.wf(),
{
    let entry0 = Entry { addr: addr0.index(), exp: exp0.to_bits(), new: new0.to_bits() };
    let entry1 = Entry { addr: addr1.index(), exp: exp1.to_bits(), new: new1.to_bits() };

    let mut entries: Vec<Entry> = Vec::new();
    entries.push(entry0);
    entries.push(entry1);
    let descriptor_ptr = m.casn.make_descriptor(tid, &mut entries);
    m.casn.help(&m.cells, &m.rdcss, tid, descriptor_ptr, false, HELP_FUEL)
}

/// The bounded N-word generalization of [`cas2`]: equal-length slices
/// of targets, expected values and new values, two to `MAX_ENTRIES`
/// words.
pub fn cas_n<T: Word>(
    m: &Mcas,
    tid: ThreadId,
    addresses: &[Atomic<T>],
    expected: &[T],
    new: &[T],
) -> bool
    requires
        m.wf(),
        (tid@ as int) < MAX_THREADS,
        addresses@.len() == expected@.len(),
        expected@.len() == new@.len(),
        2 <= addresses@.len() <= MAX_ENTRIES,
        forall|i: int| 0 <= i < addresses@.len() ==> (#[trigger] addresses@[i]).wf(m),
        forall|i: int| 0 <= i < expected@.len() ==> (#[trigger] expected@[i]).wf(),
        forall|i: int| 0 <= i < new@.len() ==> (#[trigger] new@[i]).wf(),
{
    let mut entries: Vec<Entry> = Vec::new();
    let mut i: usize = 0;
    while i < addresses.len()
        invariant
            i <= addresses@.len(),
            entries@.len() == i,
            addresses@.len() == expected@.len(),
            expected@.len() == new@.len(),
            forall|k: int| 0 <= k < expected@.len() ==> (#[trigger] expected@[k]).wf(),
            forall|k: int| 0 <= k < new@.len() ==> (#[trigger] new@[k]).wf(),
        decreases addresses@.len() - i,
    {
        let entry = Entry {
            addr: addresses[i].index(),
            exp: expected[i].to_bits(),
            new: new[i].to_bits(),
        };
        entries.push(entry);
        i = i + 1;
    }
    let descriptor_ptr = m.casn.make_descriptor(tid, &mut entries);
    m.casn.help(&m.cells, &m.rdcss, tid, descriptor_ptr, false, HELP_FUEL)
}

} // verus!
