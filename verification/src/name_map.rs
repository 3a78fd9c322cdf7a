//! An insertion-ordered mapping from names to values.
//!
//! Interfaces and objects key their members by name. The mapping is a vector
//! of `(String, V)` pairs whose keys are pairwise distinct; an insert under an
//! existing name replaces the value in place, so iteration order is the order
//! of first insertion.

use vstd::prelude::*;

verus! {

/// Whether the mapping holds an entry under key `k`.
pub open spec fn map_has<V>(m: Seq<(String, V)>, k: Seq<char>) -> bool {
    exists|i: int| 0 <= i < m.len() && #[trigger] m[i].0@ == k
}

/// The position of the entry under key `k` (meaningful only when
/// [`map_has`] holds and the keys are distinct).
pub open spec fn map_index_of<V>(m: Seq<(String, V)>, k: Seq<char>) -> int {
    choose|i: int| 0 <= i < m.len() && #[trigger] m[i].0@ == k
}

/// The value under key `k`, if any.
pub open spec fn map_get<V>(m: Seq<(String, V)>, k: Seq<char>) -> Option<V> {
    if map_has(m, k) {
        Some(m[map_index_of(m, k)].1)
    } else {
        None
    }
}

/// The keys of the mapping are pairwise distinct.
pub open spec fn unique_keys<V>(m: Seq<(String, V)>) -> bool {
    forall|i: int, j: int|
        #![trigger m[i].0@, m[j].0@]
        0 <= i < m.len() && 0 <= j < m.len() && i != j ==> m[i].0@ != m[j].0@
}

/// How an insert-or-replace of `v` under `k` turns the mapping `m0` into
/// `m1`: an existing entry under `k` is replaced in place, everything else
/// kept; a new entry is appended.
pub open spec fn inserted<V>(m0: Seq<(String, V)>, m1: Seq<(String, V)>, k: Seq<char>, v: V) -> bool {
    if map_has(m0, k) {
        let i = map_index_of(m0, k);
        &&& m1.len() == m0.len()
        &&& m1[i].0@ == k
        &&& m1[i].1 == v
        &&& forall|j: int| 0 <= j < m1.len() && j != i ==> m1[j] == m0[j]
    } else {
        &&& m1.len() == m0.len() + 1
        &&& (forall|j: int| 0 <= j < m0.len() ==> m1[j] == m0[j])
        &&& m1[m0.len() as int].0@ == k
        &&& m1[m0.len() as int].1 == v
    }
}

/// An insert-or-replace keeps the keys distinct, puts exactly `v` under `k`,
/// and leaves every other key's entry as it was.
pub proof fn lemma_inserted<V>(m0: Seq<(String, V)>, m1: Seq<(String, V)>, k: Seq<char>, v: V)
    requires
        unique_keys(m0),
        inserted(m0, m1, k, v),
    ensures
        unique_keys(m1),
        map_get(m1, k) == Some(v),
        forall|k2: Seq<char>| k2 != k ==> map_get(m1, k2) == map_get(m0, k2),
{
    if map_has(m0, k) {
        let i = map_index_of(m0, k);
        assert(0 <= i < m0.len() && m0[i].0@ == k);
        assert forall|a: int, b: int|
            #![trigger m1[a].0@, m1[b].0@]
            0 <= a < m1.len() && 0 <= b < m1.len() && a != b implies m1[a].0@ != m1[b].0@ by {
            assert(m1[a].0@ == if a == i { k } else { m0[a].0@ });
            assert(m1[b].0@ == if b == i { k } else { m0[b].0@ });
        }
        assert(map_has(m1, k));
        let i1 = map_index_of(m1, k);
        assert(0 <= i1 < m1.len() && m1[i1].0@ == k);
        assert(i1 == i);
        assert(map_get(m1, k) == Some(v));
        assert forall|k2: Seq<char>| k2 != k implies map_get(m1, k2) == map_get(m0, k2) by {
            lemma_other_keys_replace(m0, m1, k, v, k2);
        }
    } else {
        assert forall|a: int, b: int|
            #![trigger m1[a].0@, m1[b].0@]
            0 <= a < m1.len() && 0 <= b < m1.len() && a != b implies m1[a].0@ != m1[b].0@ by {
            if a < m0.len() && b < m0.len() {
                assert(m1[a].0@ == m0[a].0@ && m1[b].0@ == m0[b].0@);
            } else if a < m0.len() {
                assert(m1[b].0@ == k && m1[a].0@ == m0[a].0@);
                assert(map_has(m0, m0[a].0@));
            } else {
                assert(m1[a].0@ == k && m1[b].0@ == m0[b].0@);
                assert(map_has(m0, m0[b].0@));
            }
        }
        assert(map_has(m1, k));
        let i1 = map_index_of(m1, k);
        assert(0 <= i1 < m1.len() && m1[i1].0@ == k);
        if i1 < m0.len() {
            assert(m0[i1].0@ == k);
            assert(map_has(m0, k));
        }
        assert(map_get(m1, k) == Some(v));
        assert forall|k2: Seq<char>| k2 != k implies map_get(m1, k2) == map_get(m0, k2) by {
            lemma_other_keys_append(m0, m1, k, v, k2);
        }
    }
}

proof fn lemma_other_keys_replace<V>(
    m0: Seq<(String, V)>,
    m1: Seq<(String, V)>,
    k: Seq<char>,
    v: V,
    k2: Seq<char>,
)
    requires
        unique_keys(m0),
        map_has(m0, k),
        inserted(m0, m1, k, v),
        k2 != k,
    ensures
        map_get(m1, k2) == map_get(m0, k2),
{
    let i = map_index_of(m0, k);
    assert(0 <= i < m0.len() && m0[i].0@ == k);
    if map_has(m0, k2) {
        let j = map_index_of(m0, k2);
        assert(0 <= j < m0.len() && m0[j].0@ == k2);
        assert(j != i);
        assert(m1[j] == m0[j]);
        assert(map_has(m1, k2));
        let j1 = map_index_of(m1, k2);
        assert(0 <= j1 < m1.len() && m1[j1].0@ == k2);
        assert(j1 != i);
        assert(m1[j1] == m0[j1]);
        assert(j1 == j);
    } else {
        if map_has(m1, k2) {
            let j1 = map_index_of(m1, k2);
            assert(0 <= j1 < m1.len() && m1[j1].0@ == k2);
            assert(j1 != i);
            assert(m1[j1] == m0[j1]);
            assert(map_has(m0, k2));
        }
    }
}

proof fn lemma_other_keys_append<V>(
    m0: Seq<(String, V)>,
    m1: Seq<(String, V)>,
    k: Seq<char>,
    v: V,
    k2: Seq<char>,
)
    requires
        unique_keys(m0),
        !map_has(m0, k),
        inserted(m0, m1, k, v),
        k2 != k,
    ensures
        map_get(m1, k2) == map_get(m0, k2),
{
    if map_has(m0, k2) {
        let j = map_index_of(m0, k2);
        assert(0 <= j < m0.len() && m0[j].0@ == k2);
        assert(m1[j] == m0[j]);
        assert(map_has(m1, k2));
        let j1 = map_index_of(m1, k2);
        assert(0 <= j1 < m1.len() && m1[j1].0@ == k2);
        assert(j1 != m0.len());
        assert(m1[j1] == m0[j1]);
        assert(j1 == j);
    } else {
        if map_has(m1, k2) {
            let j1 = map_index_of(m1, k2);
            assert(0 <= j1 < m1.len() && m1[j1].0@ == k2);
            assert(j1 != m0.len());
            assert(m1[j1] == m0[j1]);
            assert(map_has(m0, k2));
        }
    }
}

/// The position of the entry named `k`, or `None` when no entry has that
/// name.
pub fn map_find<V>(m: &Vec<(String, V)>, k: &String) -> (r: Option<usize>)
    requires
        unique_keys(m@),
    ensures
        match r {
            Some(i) => map_has(m@, k@) && i == map_index_of(m@, k@) && i < m@.len()
                && m@[i as int].0@ == k@,
            None => !map_has(m@, k@),
        },
{
    let mut i: usize = 0;
    while i < m.len()
        invariant
            unique_keys(m@),
            i <= m@.len(),
            forall|j: int| 0 <= j < i ==> m@[j].0@ != k@,
        decreases m@.len() - i,
    {
        if m[i].0 == *k {
            proof {
                assert(m@[i as int].0@ == k@);
                let i0 = map_index_of(m@, k@);
                assert(0 <= i0 < m@.len() && m@[i0].0@ == k@);
                assert(i0 == i as int);
            }
            return Some(i);
        }
        i += 1;
    }
    None
}

/// Insert-or-replace: puts `v` under the name `k`, replacing in place any
/// entry already so named, else appending; returns the entry's position.
pub fn map_put<V>(m: &mut Vec<(String, V)>, k: String, v: V) -> (i: usize)
    requires
        unique_keys(old(m)@),
    ensures
        inserted(old(m)@, final(m)@, k@, v),
        i < final(m)@.len(),
        final(m)@[i as int].0@ == k@,
        final(m)@[i as int].1 == v,
        map_has(old(m)@, k@) ==> i == map_index_of(old(m)@, k@),
        !map_has(old(m)@, k@) ==> i == old(m)@.len(),
{
    match map_find(m, &k) {
        Some(i) => {
            m[i] = (k, v);
            i
        },
        None => {
            let i = m.len();
            m.push((k, v));
            i
        },
    }
}

} // verus!
