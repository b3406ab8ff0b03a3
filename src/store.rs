//! The persistent map: `near_sdk::collections::UnorderedMap<String, String>`,
//! seen through the map of texts that it holds.
//!
//! Each operation reads or writes the host's storage. A fault there (a quota,
//! a resource limit) aborts the whole call, and the host then keeps the state
//! of before the call; it is not a result that these functions return.
//!
//! A handle holds no entries itself, only its storage prefixes and lengths:
//! every handle made on one prefix reads and writes the same storage. The
//! entries are a property of a single handle only while it is the one live
//! handle on its prefix. So no function of this library makes a handle: the
//! host makes the one root record (see `KeyValue::from_pairs`), and verified
//! code only uses the handle that it is given.
use near_sdk::collections::UnorderedMap;
use vstd::prelude::*;

verus! {

/// A map's entries: key text to value text.
pub type Pairs = Map<Seq<char>, Seq<char>>;

#[verifier::external_type_specification]
#[verifier::external_body]
#[verifier::reject_recursive_types(K)]
#[verifier::reject_recursive_types(V)]
pub struct ExUnorderedMap<K, V>(UnorderedMap<K, V>);

/// The entries that a persistent map holds: each key's text to its value's text.
/// These are the keys whose index record under the map's prefix points below
/// its length, each with the value stored in that slot; the map is taken to be
/// the only live handle on its prefix.
///
/// The map serialises keys with Borsh (a length prefix and the UTF-8 bytes),
/// which tells distinct strings apart, so the entries are keyed by text.
pub uninterp spec fn pairs_of(m: UnorderedMap<String, String>) -> Pairs;

/// The text of an optional string.
pub open spec fn text_of(o: Option<String>) -> Option<Seq<char>> {
    match o {
        Some(s) => Some(s@),
        None => None,
    }
}

/// What a lookup of `k` in `pairs` finds.
pub open spec fn lookup(pairs: Pairs, k: Seq<char>) -> Option<Seq<char>> {
    if pairs.contains_key(k) {
        Some(pairs[k])
    } else {
        None
    }
}

/// Relies on `UnorderedMap::insert`: `k` maps to `v` afterwards, every other
/// entry stays, and the value that `k` had before, if any, is returned.
#[verifier::external_body]
pub(crate) fn map_insert(m: &mut UnorderedMap<String, String>, k: &String, v: &String) -> (r:
    Option<String>)
    ensures
        pairs_of(*final(m)) == pairs_of(*old(m)).insert(k@, v@),
        text_of(r) == lookup(pairs_of(*old(m)), k@),
{
    m.insert(k, v)
}

/// Relies on `UnorderedMap::get`: the value that `k` has, if any. Nothing is
/// written.
#[verifier::external_body]
pub(crate) fn map_get(m: &UnorderedMap<String, String>, k: &String) -> (r: Option<String>)
    ensures
        text_of(r) == lookup(pairs_of(*m), k@),
{
    m.get(k)
}

/// Relies on `UnorderedMap::remove`: `k` has no entry afterwards, every other
/// entry stays, and the value that `k` had before, if any, is returned. A key
/// without an entry leaves the map as it was.
#[verifier::external_body]
pub(crate) fn map_remove(m: &mut UnorderedMap<String, String>, k: &String) -> (r: Option<String>)
    ensures
        pairs_of(*final(m)) == pairs_of(*old(m)).remove(k@),
        text_of(r) == lookup(pairs_of(*old(m)), k@),
{
    m.remove(k)
}

} // verus!
