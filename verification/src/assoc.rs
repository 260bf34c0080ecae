//! Sequences that are read as maps: each item has a key, and no key occurs
//! twice.

use vstd::prelude::*;

verus! {

/// Some item of `s` has the key `k`.
pub open spec fn has_key<E, K>(s: Seq<E>, key: spec_fn(E) -> K, k: K) -> bool {
    exists|i: int| 0 <= i < s.len() && key(#[trigger] s[i]) == k
}

/// The place of an item of `s` with the key `k`.
pub open spec fn index_of_key<E, K>(s: Seq<E>, key: spec_fn(E) -> K, k: K) -> int {
    choose|i: int| 0 <= i < s.len() && key(#[trigger] s[i]) == k
}

/// No two items of `s` have the same key.
pub open spec fn distinct_keys<E, K>(s: Seq<E>, key: spec_fn(E) -> K) -> bool {
    forall|i: int, j: int|
        0 <= i < s.len() && 0 <= j < s.len() && i != j ==> key(#[trigger] s[i]) != key(
            #[trigger] s[j],
        )
}

/// The map from each item's key to what `val` reads from the item.
pub open spec fn assoc_map<E, K, V>(s: Seq<E>, key: spec_fn(E) -> K, val: spec_fn(E) -> V) -> Map<
    K,
    V,
> {
    Map::new(|k: K| has_key(s, key, k), |k: K| val(s[index_of_key(s, key, k)]))
}

/// The item at `i` is what the map holds under that item's key.
pub proof fn lemma_assoc_at<E, K, V>(
    s: Seq<E>,
    key: spec_fn(E) -> K,
    val: spec_fn(E) -> V,
    i: int,
)
    requires
        distinct_keys(s, key),
        0 <= i < s.len(),
    ensures
        assoc_map(s, key, val).dom().contains(key(s[i])),
        assoc_map(s, key, val)[key(s[i])] == val(s[i]),
        index_of_key(s, key, key(s[i])) == i,
{
    let k = key(s[i]);
    assert(key(s[i]) == k);
    assert(has_key(s, key, k));
    let j = index_of_key(s, key, k);
    assert(0 <= j < s.len() && key(s[j]) == k);
    if j != i {
        assert(key(s[i]) != key(s[j]));
    }
}

/// A key that no item has is not in the map.
pub proof fn lemma_assoc_absent<E, K, V>(
    s: Seq<E>,
    key: spec_fn(E) -> K,
    val: spec_fn(E) -> V,
    k: K,
)
    requires
        forall|i: int| 0 <= i < s.len() ==> key(#[trigger] s[i]) != k,
    ensures
        !assoc_map(s, key, val).dom().contains(k),
{
}

/// The empty sequence is the empty map.
pub proof fn lemma_assoc_empty<E, K, V>(key: spec_fn(E) -> K, val: spec_fn(E) -> V)
    ensures
        assoc_map(Seq::<E>::empty(), key, val) == Map::<K, V>::empty(),
        distinct_keys(Seq::<E>::empty(), key),
{
    assert(assoc_map(Seq::<E>::empty(), key, val) =~= Map::<K, V>::empty());
}

/// Appending an item with a new key inserts it into the map.
pub proof fn lemma_assoc_push<E, K, V>(
    s: Seq<E>,
    key: spec_fn(E) -> K,
    val: spec_fn(E) -> V,
    e: E,
)
    requires
        distinct_keys(s, key),
        !assoc_map(s, key, val).dom().contains(key(e)),
    ensures
        distinct_keys(s.push(e), key),
        assoc_map(s.push(e), key, val) == assoc_map(s, key, val).insert(key(e), val(e)),
{
    let p = s.push(e);
    assert forall|i: int, j: int| 0 <= i < p.len() && 0 <= j < p.len() && i != j implies key(
        #[trigger] p[i],
    ) != key(#[trigger] p[j]) by {
        if i < s.len() && j < s.len() {
            assert(p[i] == s[i] && p[j] == s[j]);
        } else if i < s.len() {
            assert(p[i] == s[i]);
            assert(has_key(s, key, key(s[i])));
        } else {
            assert(p[j] == s[j]);
            assert(has_key(s, key, key(s[j])));
        }
    }
    let m1 = assoc_map(p, key, val);
    let m2 = assoc_map(s, key, val).insert(key(e), val(e));
    assert forall|k: K| m1.dom().contains(k) <==> m2.dom().contains(k) by {
        if has_key(p, key, k) {
            let i = index_of_key(p, key, k);
            if i < s.len() {
                assert(p[i] == s[i]);
                assert(has_key(s, key, k));
            }
        }
        if has_key(s, key, k) {
            let i = index_of_key(s, key, k);
            assert(p[i] == s[i]);
            assert(has_key(p, key, k));
        }
        if k == key(e) {
            assert(p[s.len() as int] == e);
            assert(has_key(p, key, k));
        }
    }
    assert forall|k: K| m1.dom().contains(k) implies m1[k] == m2[k] by {
        let i = index_of_key(p, key, k);
        lemma_assoc_at(p, key, val, i);
        if i < s.len() {
            assert(p[i] == s[i]);
            lemma_assoc_at(s, key, val, i);
        } else {
            assert(p[i] == e);
        }
    }
    assert(m1 =~= m2);
}

/// Taking the item at `i` out removes its key from the map.
pub proof fn lemma_assoc_remove<E, K, V>(
    s: Seq<E>,
    key: spec_fn(E) -> K,
    val: spec_fn(E) -> V,
    i: int,
)
    requires
        distinct_keys(s, key),
        0 <= i < s.len(),
    ensures
        distinct_keys(s.remove(i), key),
        assoc_map(s.remove(i), key, val) == assoc_map(s, key, val).remove(key(s[i])),
{
    let r = s.remove(i);
    assert forall|a: int, b: int| 0 <= a < r.len() && 0 <= b < r.len() && a != b implies key(
        #[trigger] r[a],
    ) != key(#[trigger] r[b]) by {
        let a2 = if a < i {
            a
        } else {
            a + 1
        };
        let b2 = if b < i {
            b
        } else {
            b + 1
        };
        assert(r[a] == s[a2] && r[b] == s[b2]);
        assert(key(s[a2]) != key(s[b2]));
    }
    let m1 = assoc_map(r, key, val);
    let m2 = assoc_map(s, key, val).remove(key(s[i]));
    assert forall|k: K| m1.dom().contains(k) <==> m2.dom().contains(k) by {
        if has_key(r, key, k) {
            let a = index_of_key(r, key, k);
            let a2 = if a < i {
                a
            } else {
                a + 1
            };
            assert(r[a] == s[a2]);
            assert(has_key(s, key, k));
            assert(key(s[a2]) != key(s[i]));
        }
        if has_key(s, key, k) && k != key(s[i]) {
            let a = index_of_key(s, key, k);
            let a2 = if a < i {
                a
            } else {
                a - 1
            };
            assert(r[a2] == s[a]);
            assert(has_key(r, key, k));
        }
    }
    assert forall|k: K| m1.dom().contains(k) implies m1[k] == m2[k] by {
        let a = index_of_key(r, key, k);
        lemma_assoc_at(r, key, val, a);
        let a2 = if a < i {
            a
        } else {
            a + 1
        };
        assert(r[a] == s[a2]);
        lemma_assoc_at(s, key, val, a2);
    }
    assert(m1 =~= m2);
}

} // verus!
