//! Thread identities and per-thread slot tables.
//!
//! Every thread that takes part in the protocol holds a compact 14-bit id,
//! acquired from an occupancy bitmap, and each id indexes a slot in the
//! per-thread descriptor tables. A slot is written only by its owning
//! thread and read by every helper.

use vstd::prelude::*;

pub mod hashmap;

verus! {

use core::sync::atomic::{AtomicBool, Ordering};

/// Capacity of the thread registry and of every per-thread slot table.
pub const MAX_THREADS: usize = 1024;

/// A compact thread id; the tagged-word encoding reserves 14 bits for it.
#[derive(Debug, PartialEq, Eq, Clone, Copy, Structural)]
pub struct ThreadId(u16);

impl View for ThreadId {
    type V = u16;

    closed spec fn view(&self) -> u16 {
        self.0
    }
}

/// A thread id together with the obligation to give the registry slot
/// back; [`ThreadRegistry::release`] consumes it.
pub struct RegisteredThreadId(u16);

impl RegisteredThreadId {
    pub fn thread_id(&self) -> (r: ThreadId)
        ensures
            r@ == self@,
    {
        ThreadId(self.0)
    }
}

impl View for RegisteredThreadId {
    type V = u16;

    closed spec fn view(&self) -> u16 {
        self.0
    }
}

impl ThreadId {
    /// Scans the registry for a free slot and claims the first one whose
    /// flag a compare-and-swap flips; yields `None` when every slot is
    /// taken.
    pub fn register(registry: &ThreadRegistry) -> (r: Option<RegisteredThreadId>)
        requires
            registry.wf(),
        ensures
            r matches Some(id) ==> id@ < MAX_THREADS as u16,
    {
        let mut index: usize = 0;
        while index < registry.slots.len()
            invariant
                registry.wf(),
                index <= registry.slots@.len(),
            decreases registry.slots@.len() - index,
        {
            let occupied = registry.slots[index].load(Ordering::SeqCst);
            if !occupied {
                let claimed = registry.slots[index].compare_exchange(
                    false,
                    true,
                    Ordering::SeqCst,
                    Ordering::Relaxed,
                );
                if claimed.is_ok() {
                    return Some(RegisteredThreadId(index as u16));
                }
            }
            index = index + 1;
        }
        None
    }

    pub fn as_u16(&self) -> (r: u16)
        ensures
            r == self@,
    {
        self.0
    }

    pub fn from_u16(v: u16) -> (r: Self)
        ensures
            r@ == v,
    {
        Self(v)
    }
}

/// The occupancy bitmap that hands out thread ids.
pub struct ThreadRegistry {
    slots: Vec<AtomicBool>,
}

impl ThreadRegistry {
    pub closed spec fn wf(&self) -> bool {
        self.slots@.len() == MAX_THREADS
    }

    pub fn new() -> (r: Self)
        ensures
            r.wf(),
    {
        let mut slots: Vec<AtomicBool> = Vec::new();
        let mut i: usize = 0;
        while i < MAX_THREADS
            invariant
                i <= MAX_THREADS,
                slots@.len() == i,
            decreases MAX_THREADS - i,
        {
            slots.push(AtomicBool::new(false));
            i = i + 1;
        }
        ThreadRegistry { slots }
    }

    /// Gives a claimed slot back; the id must not be used afterwards.
    pub fn release(&self, id: RegisteredThreadId)
        requires
            self.wf(),
    {
        let index = id.0 as usize;
        if index < self.slots.len() {
            self.slots[index].store(false, Ordering::SeqCst);
        }
    }
}

/// A fixed table of `MAX_THREADS` values, one per possible thread id.
///
/// The table itself is immutable after construction; all mutation goes
/// through atomic cells inside `V`, which is what makes cross-thread
/// reads of a slot sound.
pub struct ThreadLocal<V> {
    map: Vec<V>,
}

impl<V> View for ThreadLocal<V> {
    type V = Seq<V>;

    closed spec fn view(&self) -> Seq<V> {
        self.map@
    }
}

impl<V> ThreadLocal<V> {
    pub fn new(map: Vec<V>) -> (r: Self)
        ensures
            r@ == map@,
    {
        ThreadLocal { map }
    }

    /// Looks a slot up by thread id; ids outside the table yield `None`.
    pub fn get_for_thread(&self, thread_id: ThreadId) -> (r: Option<&V>)
        ensures
            match r {
                Some(v) => {
                    &&& (thread_id@ as int) < self@.len()
                    &&& *v == self@[thread_id@ as int]
                },
                None => (thread_id@ as int) >= self@.len(),
            },
    {
        let index = thread_id.as_u16() as usize;
        if index < self.map.len() {
            Some(&self.map[index])
        } else {
            None
        }
    }
}

} // verus!
