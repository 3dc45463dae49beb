//! A key/value table with a capacity fixed at creation.

use std::collections::HashMap;
use vstd::prelude::*;

verus! {

broadcast use vstd::std_specs::hash::group_hash_axioms;

/// Why a write to a fixed-capacity table was refused.
#[derive(Clone, Copy, Debug, PartialEq, Eq, Structural)]
pub enum TableError {
    /// The key is new and every slot of the table is taken.
    Full,
}

/// What a table with the given contents holds under `key`, if anything.
pub open spec fn lookup(contents: Map<u32, u32>, key: u32) -> Option<u32> {
    if contents.contains_key(key) {
        Some(contents[key])
    } else {
        None
    }
}

/// A key/value table with a capacity fixed at creation: a model of one
/// shared lookup table, keyed and valued by unsigned 32-bit numbers.
///
/// The table never holds more keys than its capacity.
pub struct FixedTable {
    slots: HashMap<u32, u32>,
    max_entries: u32,
}

impl View for FixedTable {
    type V = Map<u32, u32>;

    closed spec fn view(&self) -> Map<u32, u32> {
        self.slots@
    }
}

impl FixedTable {
    /// The number of keys the table can hold.
    pub closed spec fn capacity(&self) -> nat {
        self.max_entries as nat
    }

    /// Validity: finitely many keys, and no more of them than the capacity.
    pub open spec fn wf(&self) -> bool {
        &&& self@.dom().finite()
        &&& self@.len() <= self.capacity()
    }

    /// An empty table with room for `max_entries` keys.
    pub fn with_max_entries(max_entries: u32) -> (table: Self)
        ensures
            table.wf(),
            table@ == Map::<u32, u32>::empty(),
            table.capacity() == max_entries,
    {
        FixedTable { slots: HashMap::new(), max_entries }
    }

    /// The capacity the table was created with.
    pub fn max_entries(&self) -> (n: u32)
        ensures
            n == self.capacity(),
    {
        self.max_entries
    }

    /// The number of keys present.
    pub fn len(&self) -> (n: usize)
        ensures
            n == self@.len(),
    {
        self.slots.len()
    }

    /// Whether no key is present.
    pub fn is_empty(&self) -> (empty: bool)
        ensures
            empty <==> self@ == Map::<u32, u32>::empty(),
    {
        let empty = self.slots.len() == 0;
        proof {
            if empty {
                assert(self@.dom() =~= Set::<u32>::empty());
                assert(self@ =~= Map::<u32, u32>::empty());
            }
        }
        empty
    }

    /// Whether `key` is present.
    pub fn contains_key(&self, key: u32) -> (found: bool)
        ensures
            found == self@.contains_key(key),
    {
        self.slots.contains_key(&key)
    }

    /// The value stored under `key`, if the key is present.
    pub fn get(&self, key: u32) -> (value: Option<u32>)
        ensures
            value == lookup(self@, key),
    {
        match self.slots.get(&key) {
            Some(v) => Some(*v),
            None => None,
        }
    }

    /// Stores `value` under `key`. A key already present keeps its slot and
    /// takes the new value; a new key needs a free slot.
    pub fn insert(&mut self, key: u32, value: u32) -> (result: Result<(), TableError>)
        requires
            old(self).wf(),
        ensures
            final(self).wf(),
            final(self).capacity() == old(self).capacity(),
            result is Ok <==> {
                ||| old(self)@.contains_key(key)
                ||| old(self)@.len() < old(self).capacity()
            },
            result is Ok ==> final(self)@ == old(self)@.insert(key, value),
            result is Err ==> final(self)@ == old(self)@,
    {
        if !self.slots.contains_key(&key) && self.slots.len() >= self.max_entries as usize {
            return Err(TableError::Full);
        }
        self.slots.insert(key, value);
        Ok(())
    }

    /// Removes every key.
    pub fn clear(&mut self)
        ensures
            final(self).wf(),
            final(self).capacity() == old(self).capacity(),
            final(self)@ == Map::<u32, u32>::empty(),
    {
        self.slots.clear();
    }
}

} // verus!
