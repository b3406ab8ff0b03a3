//! What holds of every sequence of calls on the store.
use crate::key_value::{created_or_updated, deleted, read_of};
use crate::store::Pairs;
use vstd::prelude::*;

verus! {

/// A mutating call on the store, as the text it was given.
pub ghost enum Call {
    CreateUpdate(Seq<char>, Seq<char>),
    Delete(Seq<char>),
}

/// The entries after `c` on `pairs`.
pub open spec fn applied(pairs: Pairs, c: Call) -> Pairs {
    match c {
        Call::CreateUpdate(k, v) => created_or_updated(pairs, k, v),
        Call::Delete(k) => deleted(pairs, k),
    }
}

/// The entries after the calls of `log`, in order, on a fresh state (no entries).
pub open spec fn replay(log: Seq<Call>) -> Pairs
    decreases log.len(),
{
    if log.len() == 0 {
        Pairs::empty()
    } else {
        applied(replay(log.drop_last()), log.last())
    }
}

/// Whether every `create_update` of `k` in `log` is followed, later in `log`,
/// by a `delete` of `k`: `k` was never set, or was removed after it was last set.
pub open spec fn unset_in(log: Seq<Call>, k: Seq<char>) -> bool {
    forall|i: int|
        #![trigger log[i]]
        0 <= i < log.len() && log[i] is CreateUpdate && log[i]->CreateUpdate_0 == k ==> exists|
            j: int,
        |
            i < j < log.len() && log[j] == Call::Delete(k)
}

/// Reading a key right after it was set gives the value it was set to.
pub proof fn law_round_trip(pairs: Pairs, k: Seq<char>, v: Seq<char>)
    ensures
        read_of(created_or_updated(pairs, k, v), k) == Some(v),
{
}

/// A key that was never set, or was deleted since it was last set, reads as
/// absent.
pub proof fn law_absence(log: Seq<Call>, k: Seq<char>)
    requires
        unset_in(log, k),
    ensures
        read_of(replay(log), k) is None,
    decreases log.len(),
{
    if log.len() > 0 {
        let prefix = log.drop_last();
        let last = log.last();
        if last != Call::Delete(k) {
            assert(!(last is CreateUpdate && last->CreateUpdate_0 == k)) by {
                if last is CreateUpdate && last->CreateUpdate_0 == k {
                    let j = choose|j: int|
                        log.len() - 1 < j < log.len() && log[j] == Call::Delete(k);
                }
            }
            assert forall|i: int|
                #![trigger prefix[i]]
                0 <= i < prefix.len() && prefix[i] is CreateUpdate && prefix[i]->CreateUpdate_0
                    == k implies exists|j: int|
                i < j < prefix.len() && prefix[j] == Call::Delete(k) by {
                assert(log[i] == prefix[i]);
                let j = choose|j: int| i < j < log.len() && log[j] == Call::Delete(k);
                assert(prefix[j] == log[j]);
            }
            law_absence(prefix, k);
        }
    }
}

/// The last of two writes to a key wins: the state is as if only the last had
/// been made.
pub proof fn law_overwrite(pairs: Pairs, k: Seq<char>, v1: Seq<char>, v2: Seq<char>)
    ensures
        created_or_updated(created_or_updated(pairs, k, v1), k, v2) == created_or_updated(
            pairs,
            k,
            v2,
        ),
        read_of(created_or_updated(created_or_updated(pairs, k, v1), k, v2), k) == Some(v2),
{
    assert(created_or_updated(created_or_updated(pairs, k, v1), k, v2) =~= created_or_updated(
        pairs,
        k,
        v2,
    ));
}

/// A key that was set and then deleted reads as absent.
pub proof fn law_deletion(pairs: Pairs, k: Seq<char>, v: Seq<char>)
    ensures
        read_of(deleted(created_or_updated(pairs, k, v), k), k) is None,
{
}

/// Deleting a key that has no entry leaves the entries as they were.
pub proof fn law_idempotent_delete(pairs: Pairs, k: Seq<char>)
    requires
        read_of(pairs, k) is None,
    ensures
        deleted(pairs, k) == pairs,
{
    assert(deleted(pairs, k) =~= pairs);
}

/// Setting one key leaves what every other key reads unchanged.
pub proof fn law_isolation(pairs: Pairs, k1: Seq<char>, v: Seq<char>, k2: Seq<char>)
    requires
        k1 != k2,
    ensures
        read_of(created_or_updated(pairs, k1, v), k2) == read_of(pairs, k2),
{
}

} // verus!
