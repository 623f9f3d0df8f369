//! What a literal denotes, as a mathematical map.
use vstd::prelude::*;

verus! {

/// The map that `init` becomes when the pairs of `clauses` are inserted
/// into it one by one, from the first clause to the last. A later clause
/// replaces what an earlier one, or `init`, held under the same key.
pub open spec fn insert_all<K, V>(init: Map<K, V>, clauses: Seq<(K, V)>) -> Map<K, V>
    decreases clauses.len(),
{
    if clauses.len() == 0 {
        init
    } else {
        insert_all(init, clauses.drop_last()).insert(clauses.last().0, clauses.last().1)
    }
}

/// The keys of `clauses`, in clause order.
pub open spec fn keys_of<K, V>(clauses: Seq<(K, V)>) -> Seq<K> {
    clauses.map_values(|clause: (K, V)| clause.0)
}

} // verus!
