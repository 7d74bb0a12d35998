//! The keys of a hash map as a list.

use std::collections::HashMap;
use vstd::prelude::*;
use vstd::std_specs::iter::IteratorSpec;

verus! {

broadcast use vstd::std_specs::hash::group_hash_axioms;

/// Whether a list names each key of a set exactly once.
pub open spec fn lists_keys(order: Seq<isize>, keys: Set<isize>) -> bool {
    order.no_duplicates() && order.to_set() == keys
}

/// The keys of a map. Their order is the map's own and may differ from call to call.
pub fn keys_of<V>(map: &HashMap<isize, V>) -> (keys: Vec<isize>)
    ensures
        lists_keys(keys@, map@.dom()),
{
    let mut keys: Vec<isize> = Vec::new();
    for entry in walk: map.iter()
        invariant
            keys@.len() == walk.index(),
            walk.seq() == map.iter().remaining(),
            forall|i: int| 0 <= i < keys@.len() ==> keys@[i] == *(#[trigger] walk.seq()[i]).0,
    {
        keys.push(*entry.0);
    }
    proof {
        let pairs = map.iter().remaining();
        assert forall|i: int, j: int| 0 <= i < keys@.len() && 0 <= j < keys@.len() && i != j implies keys@[i]
            != keys@[j] by {
            assert(map@.contains_key(*pairs[i].0) && map@[*pairs[i].0] == *pairs[i].1);
            assert(map@.contains_key(*pairs[j].0) && map@[*pairs[j].0] == *pairs[j].1);
            assert(pairs[i] != pairs[j]);
        }
        assert forall|key: isize| keys@.to_set().contains(key) implies map@.dom().contains(key) by {
            let i = choose|i: int| 0 <= i < keys@.len() && keys@[i] == key;
            assert(map@.contains_key(*pairs[i].0));
        }
        assert forall|key: isize| map@.dom().contains(key) implies keys@.to_set().contains(key) by {
            let at = choose|at: int| 0 <= at < pairs.len() && pairs[at] == (&key, &map@[key]);
            assert(keys@[at] == key);
        }
        assert(keys@.to_set() =~= map@.dom());
    }
    keys
}

} // verus!
