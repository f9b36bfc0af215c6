//! The value table of the learned policy.
//!
//! A mapping from the engine's stable state hash to a pair of fixed-length
//! action-value rows, one row per side, one entry per canonical action
//! index.  The host's trainer owns the estimates and scales them onto an
//! integer grid; this core only ever compares them, so their ordering is all
//! that matters.  A bulk initializer produces an all-zero entry for every
//! reachable hash; at runtime a missing key simply means an unseen state.

use vstd::prelude::*;

use std::collections::HashMap;

verus! {

broadcast use vstd::std_specs::hash::group_hash_axioms;

/// The size of the discrete action space: one entry per canonical index.
pub const QVALUES_ACTIONS: usize = 17;

/// The number of distinct state hashes the engine can produce.
pub const QVALUES_STATES: u64 = 206909;

/// One side's action-value row.
pub type QValueRow = [i64; QVALUES_ACTIONS];

/// The shared table: state hash to one action-value row per side
/// (left, right).
pub type QValues = HashMap<u64, (QValueRow, QValueRow)>;

/// The entry the bulk initializer writes: all estimates zero.
pub open spec fn blank_entry() -> (QValueRow, QValueRow) {
    ([0i64; QVALUES_ACTIONS], [0i64; QVALUES_ACTIONS])
}

/// The index the exploit path picks from a row: the first index holding the
/// row's maximum.
pub open spec fn first_max_index(s: Seq<i64>) -> int
    decreases s.len(),
{
    if s.len() <= 1 {
        0
    } else {
        let r = first_max_index(s.drop_last());
        if s.last() > s[r] { s.len() - 1 } else { r }
    }
}

/// The first-maximum index lies in the row, carries the row's maximum, and
/// every earlier entry is strictly below it.
pub proof fn lemma_first_max_index(s: Seq<i64>)
    requires
        s.len() > 0,
    ensures
        0 <= first_max_index(s) < s.len(),
        forall|j: int| 0 <= j < s.len() ==> #[trigger] s[j] <= s[first_max_index(s)],
        forall|j: int| 0 <= j < first_max_index(s) ==> #[trigger] s[j] < s[first_max_index(s)],
    decreases s.len(),
{
    if s.len() > 1 {
        let t = s.drop_last();
        lemma_first_max_index(t);
        let r = first_max_index(t);
        assert(forall|j: int| 0 <= j < t.len() ==> #[trigger] s[j] == t[j]);
        if s.last() > s[r] {
            assert(first_max_index(s) == s.len() - 1);
            assert forall|j: int| 0 <= j < s.len() - 1 implies #[trigger] s[j] < s.last() by {
                assert(t[j] <= t[r]);
            }
        } else {
            assert(first_max_index(s) == r);
        }
    }
}

/// The index of the greatest estimate in a row; on ties, the first such
/// index wins.
pub fn max_index(array: &QValueRow) -> (idx: usize)
    ensures
        idx == first_max_index(array@),
        idx < QVALUES_ACTIONS,
{
    let mut idx: usize = 0;
    let mut key: usize = 1;
    while key < QVALUES_ACTIONS
        invariant
            1 <= key <= QVALUES_ACTIONS,
            idx < key,
            idx == first_max_index(array@.take(key as int)),
        decreases QVALUES_ACTIONS - key,
    {
        proof {
            assert(array@.take(key + 1).drop_last() =~= array@.take(key as int));
            lemma_first_max_index(array@.take(key as int));
        }
        if array[key] > array[idx] {
            idx = key;
        }
        key = key + 1;
    }
    proof {
        assert(array@.take(QVALUES_ACTIONS as int) =~= array@);
    }
    idx
}

/// Builds the bulk-initialized table: every reachable state hash present,
/// every estimate zero.
pub fn get_blank_q_values() -> (m: QValues)
    ensures
        forall|k: u64| k < QVALUES_STATES ==> #[trigger] m@.contains_key(k),
        forall|k: u64| #[trigger] m@.contains_key(k) ==> k < QVALUES_STATES,
        forall|k: u64| #[trigger] m@.contains_key(k) ==> m@[k] == blank_entry(),
{
    let mut map: QValues = HashMap::with_capacity(QVALUES_STATES as usize);
    let entry = ([0i64; QVALUES_ACTIONS], [0i64; QVALUES_ACTIONS]);
    let mut i: u64 = 0;
    while i < QVALUES_STATES
        invariant
            i <= QVALUES_STATES,
            entry == blank_entry(),
            forall|k: u64| k < i ==> #[trigger] map@.contains_key(k),
            forall|k: u64| #[trigger] map@.contains_key(k) ==> k < i,
            forall|k: u64| #[trigger] map@.contains_key(k) ==> map@[k] == blank_entry(),
        decreases QVALUES_STATES - i,
    {
        map.insert(i, entry);
        i = i + 1;
    }
    map
}

} // verus!
