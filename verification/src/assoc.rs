//! Association lists keyed by strings: the library's form of the JSON
//! objects that Mojang's metadata uses as maps.

use vstd::prelude::*;
use crate::text::str_eq;

verus! {

/// `i` is the first position of `m` whose key is `k`.
pub open spec fn first_match<V>(m: Seq<(String, V)>, k: Seq<char>, i: int) -> bool {
    &&& 0 <= i < m.len()
    &&& m[i].0@ == k
    &&& forall|j: int| 0 <= j < i ==> (#[trigger] m[j]).0@ != k
}

/// The value stored under `k` (the first one, should the key repeat).
pub open spec fn assoc_get<V>(m: Seq<(String, V)>, k: Seq<char>) -> Option<V> {
    if exists|i: int| first_match(m, k, i) {
        Some(m[choose|i: int| first_match(m, k, i)].1)
    } else {
        None
    }
}

pub proof fn lemma_first_match_unique<V>(m: Seq<(String, V)>, k: Seq<char>, i: int, j: int)
    requires
        first_match(m, k, i),
        first_match(m, k, j),
    ensures
        i == j,
{
    if i < j {
        assert(m[i].0@ != k);
    } else if j < i {
        assert(m[j].0@ != k);
    }
}

/// No key occurs twice in `m`. The lists stand for JSON objects, whose keys
/// are unique, so every list that comes from one holds this.
pub open spec fn keys_distinct<V>(m: Seq<(String, V)>) -> bool {
    forall|i: int, j: int| 0 <= i < j < m.len() ==> (#[trigger] m[i]).0@ != (#[trigger] m[j]).0@
}

/// Where no key repeats, looking up the key of an entry finds that entry:
/// the list reads as the map it stands for.
pub proof fn lemma_distinct_keys_get<V>(m: Seq<(String, V)>, i: int)
    requires
        keys_distinct(m),
        0 <= i < m.len(),
    ensures
        first_match(m, m[i].0@, i),
        assoc_get(m, m[i].0@) == Some(m[i].1),
{
    assert forall|j: int| 0 <= j < i implies (#[trigger] m[j]).0@ != m[i].0@ by {
        assert(m[j].0@ != m[i].0@);
    }
    assert(first_match(m, m[i].0@, i));
    let c = choose|c: int| first_match(m, m[i].0@, c);
    lemma_first_match_unique(m, m[i].0@, i, c);
}

/// Position of the first entry of `m` whose key is `k`.
pub fn find_key<V>(m: &Vec<(String, V)>, k: &str) -> (r: Option<usize>)
    ensures
        match r {
            Some(i) => first_match(m@, k@, i as int) && assoc_get(m@, k@) == Some(m@[i as int].1),
            None => assoc_get(m@, k@) is None && forall|j: int|
                0 <= j < m@.len() ==> (#[trigger] m@[j]).0@ != k@,
        },
{
    let mut i: usize = 0;
    while i < m.len()
        invariant
            i <= m@.len(),
            forall|j: int| 0 <= j < i ==> (#[trigger] m@[j]).0@ != k@,
        decreases m.len() - i,
    {
        if str_eq(m[i].0.as_str(), k) {
            proof {
                assert(first_match(m@, k@, i as int));
                let c = choose|c: int| first_match(m@, k@, c);
                lemma_first_match_unique(m@, k@, i as int, c);
            }
            return Some(i);
        }
        i = i + 1;
    }
    None
}

} // verus!
