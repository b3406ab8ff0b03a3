//! The contract state and its three handlers.
use crate::store::{lookup, map_get, map_insert, map_remove, pairs_of, text_of, Pairs};
use near_sdk::collections::UnorderedMap;
use vstd::prelude::*;

verus! {

/// The byte under which the root record's map keeps its entries in storage
/// (`b'r'`): the host makes the state's one handle on it.
pub const PAIRS_PREFIX: u8 = 0x72;

/// The entries after `create_update(k, v)` on `pairs`.
pub open spec fn created_or_updated(pairs: Pairs, k: Seq<char>, v: Seq<char>) -> Pairs {
    pairs.insert(k, v)
}

/// The entries after `delete(k)` on `pairs`.
pub open spec fn deleted(pairs: Pairs, k: Seq<char>) -> Pairs {
    pairs.remove(k)
}

/// What `read(k)` returns on `pairs`.
pub open spec fn read_of(pairs: Pairs, k: Seq<char>) -> Option<Seq<char>> {
    lookup(pairs, k)
}

/// The contract's single root record: it owns the persistent map.
pub struct KeyValue {
    pairs: UnorderedMap<String, String>,
}

impl View for KeyValue {
    type V = Pairs;

    closed spec fn view(&self) -> Pairs {
        pairs_of(self.pairs)
    }
}

impl KeyValue {
    /// The state around the root record's map: an empty map that the host has
    /// just made under `PAIRS_PREFIX` (a fresh state), or the one read back
    /// from storage at the start of a call.
    ///
    /// `pairs` is to be the only live handle on its prefix, and its storage is
    /// to hold what earlier calls on that prefix left. The host makes exactly
    /// one such handle per call; verified code cannot make another.
    pub fn from_pairs(pairs: UnorderedMap<String, String>) -> (r: Self)
        ensures
            r@ == pairs_of(pairs),
    {
        KeyValue { pairs }
    }

    /// The map that the state owns, to be written back to storage.
    pub fn pairs(&self) -> (r: &UnorderedMap<String, String>)
        ensures
            pairs_of(*r) == self@,
    {
        &self.pairs
    }

    /// Associates `v` with `k`, replacing any earlier value of `k`.
    pub fn create_update(&mut self, k: String, v: String)
        ensures
            final(self)@ == created_or_updated(old(self)@, k@, v@),
    {
        let _previous = map_insert(&mut self.pairs, &k, &v);
    }

    /// The value of `k`, or `None` where `k` has no entry.
    pub fn read(&self, k: String) -> (r: Option<String>)
        ensures
            text_of(r) == read_of(self@, k@),
    {
        map_get(&self.pairs, &k)
    }

    /// Removes the entry of `k`; a key without an entry is left as it is.
    pub fn delete(&mut self, k: String)
        ensures
            final(self)@ == deleted(old(self)@, k@),
    {
        let _removed = map_remove(&mut self.pairs, &k);
    }
}

} // verus!
