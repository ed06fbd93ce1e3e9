//! Finding the most frequent value of a dataset, grouping values by a
//! textual key (their canonical decimal form) rather than by raw equality.
use vstd::prelude::*;

verus! {

/// The keys as character sequences.
pub open spec fn key_views(keys: Seq<String>) -> Seq<Seq<char>> {
    keys.map_values(|s: String| s@)
}

/// How many entries of `keys` equal `k`.
pub open spec fn occurrences(keys: Seq<Seq<char>>, k: Seq<char>) -> nat
    decreases keys.len(),
{
    if keys.len() == 0 {
        0
    } else {
        occurrences(keys.drop_last(), k) + if keys.last() == k {
            1nat
        } else {
            0nat
        }
    }
}

/// `i` stands for a group of largest size, and is the first entry of it.
pub open spec fn is_mode_index(keys: Seq<Seq<char>>, i: int) -> bool {
    &&& 0 <= i < keys.len()
    &&& forall|j: int|
        0 <= j < keys.len() ==> occurrences(keys, #[trigger] keys[j]) <= occurrences(keys, keys[i])
    &&& forall|j: int| 0 <= j < i ==> #[trigger] keys[j] != keys[i]
}

/// Counts the entries of `keys` that equal `k`.
fn count_key(keys: &Vec<String>, k: &String) -> (c: usize)
    ensures
        c == occurrences(key_views(keys@), k@),
{
    let ghost ks = key_views(keys@);
    let mut c: usize = 0;
    let mut j: usize = 0;
    while j < keys.len()
        invariant
            j <= keys@.len(),
            ks == key_views(keys@),
            c == occurrences(ks.take(j as int), k@),
            c <= j,
        decreases keys@.len() - j,
    {
        assert(ks.take(j + 1).drop_last() == ks.take(j as int));
        if keys[j] == *k {
            c = c + 1;
        }
        j = j + 1;
    }
    assert(ks.take(j as int) == ks);
    c
}

/// The position of a most frequent key: the first entry of a group that no
/// other group outnumbers. When several groups tie, any of them may stand
/// for the mode.
pub fn mode_index(keys: &Vec<String>) -> (r: usize)
    requires
        keys@.len() > 0,
    ensures
        is_mode_index(key_views(keys@), r as int),
{
    let ghost ks = key_views(keys@);
    let mut best: usize = 0;
    let mut best_count = count_key(keys, &keys[0]);
    let mut i: usize = 1;
    while i < keys.len()
        invariant
            1 <= i <= keys@.len(),
            ks == key_views(keys@),
            best < i,
            best_count == occurrences(ks, ks[best as int]),
            forall|j: int| 0 <= j < i ==> occurrences(ks, #[trigger] ks[j]) <= best_count,
            forall|j: int| 0 <= j < best ==> #[trigger] ks[j] != ks[best as int],
        decreases keys@.len() - i,
    {
        let c = count_key(keys, &keys[i]);
        if c > best_count {
            assert forall|j: int| 0 <= j < i implies #[trigger] ks[j] != ks[i as int] by {
                if ks[j] == ks[i as int] {
                    assert(occurrences(ks, ks[j]) <= best_count);
                }
            }
            best = i;
            best_count = c;
        }
        i = i + 1;
    }
    best
}

} // verus!
