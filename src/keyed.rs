//! Sequences whose elements carry unique keys, seen as finite maps.
use vstd::prelude::*;

verus! {

/// No two positions of `s` hold elements with the same key.
pub open spec fn unique_keys<T, K>(s: Seq<T>, key: spec_fn(T) -> K) -> bool {
    forall|i: int, j: int|
        0 <= i < s.len() && 0 <= j < s.len() && #[trigger] key(s[i]) == #[trigger] key(s[j])
            ==> i == j
}

/// Some position of `s` holds an element with key `k`.
pub open spec fn has_key<T, K>(s: Seq<T>, key: spec_fn(T) -> K, k: K) -> bool {
    exists|i: int| 0 <= i < s.len() && #[trigger] key(s[i]) == k
}

/// A position of `s` holding an element with key `k`, where there is one.
pub open spec fn index_of<T, K>(s: Seq<T>, key: spec_fn(T) -> K, k: K) -> int {
    choose|i: int| 0 <= i < s.len() && #[trigger] key(s[i]) == k
}

/// The map from each key in `s` to the element that carries it.
pub open spec fn keyed_map<T, K>(s: Seq<T>, key: spec_fn(T) -> K) -> Map<K, T> {
    Map::new(|k: K| has_key(s, key, k), |k: K| s[index_of(s, key, k)])
}

pub proof fn lemma_keyed_index<T, K>(s: Seq<T>, key: spec_fn(T) -> K, i: int)
    requires
        unique_keys(s, key),
        0 <= i < s.len(),
    ensures
        keyed_map(s, key).contains_key(key(s[i])),
        keyed_map(s, key)[key(s[i])] == s[i],
        index_of(s, key, key(s[i])) == i,
{
    assert(has_key(s, key, key(s[i])));
}

pub proof fn lemma_keyed_update<T, K>(s: Seq<T>, key: spec_fn(T) -> K, i: int, a: T)
    requires
        unique_keys(s, key),
        0 <= i < s.len(),
        key(a) == key(s[i]),
    ensures
        unique_keys(s.update(i, a), key),
        keyed_map(s.update(i, a), key) == keyed_map(s, key).insert(key(a), a),
{
    let t = s.update(i, a);
    assert forall|x: int, y: int|
        0 <= x < t.len() && 0 <= y < t.len() && #[trigger] key(t[x]) == #[trigger] key(t[y])
        implies x == y by {
        assert(key(t[x]) == key(s[x]));
        assert(key(t[y]) == key(s[y]));
    }
    let m1 = keyed_map(t, key);
    let m2 = keyed_map(s, key).insert(key(a), a);
    assert forall|k: K| m1.contains_key(k) <==> m2.contains_key(k) by {
        if has_key(t, key, k) {
            let j = choose|j: int| 0 <= j < t.len() && #[trigger] key(t[j]) == k;
            assert(key(s[j]) == k);
        }
        if has_key(s, key, k) {
            let j = choose|j: int| 0 <= j < s.len() && #[trigger] key(s[j]) == k;
            assert(key(t[j]) == k);
        }
        if k == key(a) {
            assert(key(t[i]) == k);
        }
    }
    assert forall|k: K| #[trigger] m1.contains_key(k) implies m1[k] == m2[k] by {
        let j = index_of(t, key, k);
        assert(key(t[j]) == k);
        if k == key(a) {
            assert(key(t[i]) == k);
        } else {
            assert(key(s[j]) == k);
            lemma_keyed_index(s, key, j);
        }
    }
    assert(m1 =~= m2);
}

pub proof fn lemma_keyed_push<T, K>(s: Seq<T>, key: spec_fn(T) -> K, a: T)
    requires
        unique_keys(s, key),
        !keyed_map(s, key).contains_key(key(a)),
    ensures
        unique_keys(s.push(a), key),
        keyed_map(s.push(a), key) == keyed_map(s, key).insert(key(a), a),
{
    let t = s.push(a);
    let n = s.len() as int;
    assert forall|x: int, y: int|
        0 <= x < t.len() && 0 <= y < t.len() && #[trigger] key(t[x]) == #[trigger] key(t[y])
        implies x == y by {
        if x < n && y == n {
            assert(has_key(s, key, key(s[x])));
        } else if x == n && y < n {
            assert(has_key(s, key, key(s[y])));
        }
    }
    let m1 = keyed_map(t, key);
    let m2 = keyed_map(s, key).insert(key(a), a);
    assert forall|k: K| m1.contains_key(k) <==> m2.contains_key(k) by {
        if has_key(t, key, k) {
            let j = choose|j: int| 0 <= j < t.len() && #[trigger] key(t[j]) == k;
            if j < n {
                assert(key(s[j]) == k);
            }
        }
        if has_key(s, key, k) {
            let j = choose|j: int| 0 <= j < s.len() && #[trigger] key(s[j]) == k;
            assert(key(t[j]) == k);
        }
        if k == key(a) {
            assert(key(t[n]) == k);
        }
    }
    assert forall|k: K| #[trigger] m1.contains_key(k) implies m1[k] == m2[k] by {
        let j = index_of(t, key, k);
        assert(key(t[j]) == k);
        if k == key(a) {
            lemma_keyed_index(t, key, n);
        } else {
            assert(j < n);
            assert(key(s[j]) == k);
            lemma_keyed_index(s, key, j);
        }
    }
    assert(m1 =~= m2);
}

pub proof fn lemma_keyed_remove<T, K>(s: Seq<T>, key: spec_fn(T) -> K, i: int)
    requires
        unique_keys(s, key),
        0 <= i < s.len(),
    ensures
        unique_keys(s.remove(i), key),
        keyed_map(s.remove(i), key) == keyed_map(s, key).remove(key(s[i])),
{
    let t = s.remove(i);
    assert forall|x: int, y: int|
        0 <= x < t.len() && 0 <= y < t.len() && #[trigger] key(t[x]) == #[trigger] key(t[y])
        implies x == y by {
        let sx = if x < i { x } else { x + 1 };
        let sy = if y < i { y } else { y + 1 };
        assert(t[x] == s[sx]);
        assert(t[y] == s[sy]);
    }
    let m1 = keyed_map(t, key);
    let m2 = keyed_map(s, key).remove(key(s[i]));
    assert forall|k: K| m1.contains_key(k) <==> m2.contains_key(k) by {
        if has_key(t, key, k) {
            let j = choose|j: int| 0 <= j < t.len() && #[trigger] key(t[j]) == k;
            let sj = if j < i { j } else { j + 1 };
            assert(t[j] == s[sj]);
            assert(key(s[sj]) == k);
        }
        if has_key(s, key, k) && k != key(s[i]) {
            let j = choose|j: int| 0 <= j < s.len() && #[trigger] key(s[j]) == k;
            let tj = if j < i { j } else { j - 1 };
            assert(t[tj] == s[j]);
            assert(key(t[tj]) == k);
        }
    }
    assert forall|k: K| #[trigger] m1.contains_key(k) implies m1[k] == m2[k] by {
        let j = index_of(t, key, k);
        assert(key(t[j]) == k);
        let sj = if j < i { j } else { j + 1 };
        assert(t[j] == s[sj]);
        lemma_keyed_index(s, key, sj);
    }
    assert(m1 =~= m2);
}

} // verus!
