//! A concurrent map from 14-bit thread ids to per-thread values.
//!
//! A key splits into an 8-bit first-level index and a 6-bit second-level
//! index, so every valid key owns exactly one cell of the 256 × 64
//! table. A cell is written once and read from any thread; the stored
//! key is kept beside the value so a read can check what it found.

use vstd::prelude::*;

verus! {

use std::sync::OnceLock;

/// Number of first-level slots: one per value of the low key byte.
pub const FIRST_LEVEL_SLOTS: usize = 256;

/// Number of second-level slots: one per value of key bits 8 to 13.
pub const SECOND_LEVEL_SLOTS: usize = 64;

#[verifier::external_type_specification]
#[verifier::external_body]
#[verifier::reject_recursive_types(T)]
pub struct ExOnceLock<T>(OnceLock<T>);

/// Relies on `std::sync::OnceLock::new`: an empty write-once cell.
pub assume_specification<T>[ OnceLock::<T>::new ]() -> OnceLock<T>;

/// Relies on `std::sync::OnceLock::get_or_init`: hands back the cell's
/// value, initializing it from the closure first when the cell is still
/// empty; of racing initializers exactly one value wins and all callers
/// see it. The cell is opaque here, so nothing ties the result to a
/// particular call.
pub assume_specification<T, F>[ OnceLock::<T>::get_or_init ](l: &OnceLock<T>, f: F) -> &T
    where
        F: FnOnce() -> T,
;

/// Relies on `std::sync::OnceLock::get`: the cell's value, or `None`
/// while the cell is empty.
pub assume_specification<T>[ OnceLock::<T>::get ](l: &OnceLock<T>) -> Option<&T>;

/// A key with its stored value, resident in one table cell.
pub struct KeyValue<V> {
    pub key: u16,
    pub val: V,
}

/// The outcome of an insertion that lost to an existing entry: the
/// value found under the key and the value that was not stored.
pub struct TryInsertError<'a, V> {
    pub current: &'a V,
    pub not_inserted: V,
}

/// One first-level slot: the write-once cells of its second level.
#[verifier::reject_recursive_types(V)]
struct SecondLevel<V> {
    slots: Vec<OnceLock<KeyValue<V>>>,
}

impl<V> SecondLevel<V> {
    spec fn wf(&self) -> bool {
        self.slots@.len() == SECOND_LEVEL_SLOTS
    }

    fn new() -> (r: Self)
        ensures
            r.wf(),
    {
        let mut slots: Vec<OnceLock<KeyValue<V>>> = Vec::new();
        let mut i: usize = 0;
        while i < SECOND_LEVEL_SLOTS
            invariant
                i <= SECOND_LEVEL_SLOTS,
                slots@.len() == i,
            decreases SECOND_LEVEL_SLOTS - i,
        {
            slots.push(OnceLock::new());
            i = i + 1;
        }
        SecondLevel { slots }
    }
}

/// The two-level table itself.
#[verifier::reject_recursive_types(V)]
pub struct Uint14HashMap<V> {
    array: Vec<SecondLevel<V>>,
}

impl<V> Uint14HashMap<V> {
    pub closed spec fn wf(&self) -> bool {
        &&& self.array@.len() == FIRST_LEVEL_SLOTS
        &&& forall|i: int| 0 <= i < self.array@.len() ==> (#[trigger] self.array@[i]).wf()
    }

    pub fn new() -> (r: Self)
        ensures
            r.wf(),
    {
        let mut array: Vec<SecondLevel<V>> = Vec::new();
        let mut i: usize = 0;
        while i < FIRST_LEVEL_SLOTS
            invariant
                i <= FIRST_LEVEL_SLOTS,
                array@.len() == i,
                forall|k: int| 0 <= k < i ==> (#[trigger] array@[k]).wf(),
            decreases FIRST_LEVEL_SLOTS - i,
        {
            array.push(SecondLevel::new());
            i = i + 1;
        }
        Uint14HashMap { array }
    }

    /// The value stored under the key, storing the given one first when
    /// the key had none; an entry already present wins and the new
    /// value is dropped, as the write-once cell decides.
    pub fn insert(&self, key: u16, val: V) -> (r: &V)
        requires
            self.wf(),
            key < 0x4000,
    {
        let f = fst_lvl_idx(key);
        let s = scd_lvl_idx(key);
        let kv = self.array[f].slots[s].get_or_init(|| KeyValue { key, val });
        &kv.val
    }

    /// The value stored under the key, when an entry carrying exactly
    /// this key sits in the key's cell.
    pub fn get(&self, key: u16) -> (r: Option<&V>)
        requires
            self.wf(),
            key < 0x4000,
    {
        let f = fst_lvl_idx(key);
        let s = scd_lvl_idx(key);
        match self.array[f].slots[s].get() {
            Some(kv) => {
                if kv.key == key {
                    Some(&kv.val)
                } else {
                    None
                }
            },
            None => None,
        }
    }
}

/// The low eight key bits: the first-level index.
pub fn fst_lvl_idx(key: u16) -> (r: usize)
    ensures
        r == (key & 0xff) as usize,
        r < FIRST_LEVEL_SLOTS,
{
    proof {
        assert((key & 0xffu16) < 256) by (bit_vector);
    }
    (key & 0xff) as usize
}

/// Key bits eight to thirteen: the second-level index.
pub fn scd_lvl_idx(key: u16) -> (r: usize)
    ensures
        r == ((key >> 8) & 0x3f) as usize,
        r < SECOND_LEVEL_SLOTS,
{
    proof {
        assert(((key >> 8) & 0x3fu16) < 64) by (bit_vector);
    }
    ((key >> 8) & 0x3f) as usize
}

/// For keys below `2^14` the two indices identify the key: the cell a
/// key owns belongs to it alone.
pub proof fn lemma_key_cell_unique(k1: u16, k2: u16)
    requires
        k1 < 0x4000,
        k2 < 0x4000,
        (k1 & 0xff) == (k2 & 0xff),
        ((k1 >> 8) & 0x3f) == ((k2 >> 8) & 0x3f),
    ensures
        k1 == k2,
{
    assert(k1 == k2) by (bit_vector)
        requires
            k1 < 0x4000,
            k2 < 0x4000,
            (k1 & 0xff) == (k2 & 0xff),
            ((k1 >> 8) & 0x3f) == ((k2 >> 8) & 0x3f),
    ;
}

} // verus!
