//! Finite maps held as sequences of pairs with unique keys.

use vstd::prelude::*;

verus! {

/// The map that a sequence of pairs stands for; a later pair wins over an earlier one.
pub open spec fn assoc_map<K, V>(s: Seq<(K, V)>) -> Map<K, V>
    decreases s.len(),
{
    if s.len() == 0 {
        Map::empty()
    } else {
        assoc_map(s.drop_last()).insert(s.last().0, s.last().1)
    }
}

/// No two pairs of `s` share a key.
pub open spec fn unique_keys<K, V>(s: Seq<(K, V)>) -> bool {
    forall|i: int, j: int| 0 <= i < s.len() && 0 <= j < s.len() && i != j ==> s[i].0 != s[j].0
}

/// Some pair of `s` has key `k`.
pub open spec fn has_key<K, V>(s: Seq<(K, V)>, k: K) -> bool {
    exists|i: int| 0 <= i < s.len() && s[i].0 == k
}

/// The keys of the map are those of the pairs.
pub proof fn lemma_assoc_contains<K, V>(s: Seq<(K, V)>, k: K)
    ensures
        assoc_map(s).contains_key(k) == has_key(s, k),
    decreases s.len(),
{
    if s.len() > 0 {
        let d = s.drop_last();
        lemma_assoc_contains(d, k);
        if has_key(d, k) {
            let i = choose|i: int| 0 <= i < d.len() && d[i].0 == k;
            assert(s[i].0 == k);
        }
        if has_key(s, k) && k != s.last().0 {
            let i = choose|i: int| 0 <= i < s.len() && s[i].0 == k;
            assert(d[i].0 == k);
        }
        if k == s.last().0 {
            assert(s[s.len() - 1].0 == k);
        }
    }
}

/// The map of a sequence of pairs has finitely many keys.
pub proof fn lemma_assoc_finite<K, V>(s: Seq<(K, V)>)
    ensures
        assoc_map(s).dom().finite(),
    decreases s.len(),
{
    if s.len() > 0 {
        lemma_assoc_finite(s.drop_last());
    }
}

/// Appending a pair inserts it.
pub proof fn lemma_assoc_push<K, V>(s: Seq<(K, V)>, k: K, v: V)
    requires
        unique_keys(s),
        !has_key(s, k),
    ensures
        assoc_map(s.push((k, v))) == assoc_map(s).insert(k, v),
        unique_keys(s.push((k, v))),
{
    assert(s.push((k, v)).drop_last() =~= s);
    let t = s.push((k, v));
    assert forall|i: int, j: int| 0 <= i < t.len() && 0 <= j < t.len() && i != j implies t[i].0
        != t[j].0 by {
        if i == s.len() {
            assert(s[j].0 != k);
        } else if j == s.len() {
            assert(s[i].0 != k);
        }
    }
}

/// Replacing the value of an existing pair updates that key.
pub proof fn lemma_assoc_update<K, V>(s: Seq<(K, V)>, i: int, v: V)
    requires
        unique_keys(s),
        0 <= i < s.len(),
    ensures
        assoc_map(s.update(i, (s[i].0, v))) == assoc_map(s).insert(s[i].0, v),
        unique_keys(s.update(i, (s[i].0, v))),
    decreases s.len(),
{
    let t = s.update(i, (s[i].0, v));
    let d = s.drop_last();
    if i == s.len() - 1 {
        assert(t.drop_last() =~= d);
        assert(assoc_map(t) =~= assoc_map(s).insert(s[i].0, v));
    } else {
        assert(t.drop_last() =~= d.update(i, (s[i].0, v)));
        assert(unique_keys(d)) by {
            assert forall|a: int, b: int| 0 <= a < d.len() && 0 <= b < d.len() && a != b implies d[a].0
                != d[b].0 by {
                assert(s[a].0 != s[b].0);
            }
        }
        lemma_assoc_update(d, i, v);
        assert(s[i].0 != s[s.len() - 1].0);
        assert(assoc_map(t) =~= assoc_map(s).insert(s[i].0, v));
    }
    assert forall|a: int, b: int| 0 <= a < t.len() && 0 <= b < t.len() && a != b implies t[a].0
        != t[b].0 by {
        assert(s[a].0 != s[b].0);
    }
}

/// Under unique keys, each pair's value is what the map holds under its key.
pub proof fn lemma_assoc_value<K, V>(s: Seq<(K, V)>, i: int)
    requires
        unique_keys(s),
        0 <= i < s.len(),
    ensures
        assoc_map(s).contains_key(s[i].0),
        assoc_map(s)[s[i].0] == s[i].1,
    decreases s.len(),
{
    if i < s.len() - 1 {
        let d = s.drop_last();
        assert(unique_keys(d)) by {
            assert forall|a: int, b: int| 0 <= a < d.len() && 0 <= b < d.len() && a != b implies d[a].0
                != d[b].0 by {
                assert(s[a].0 != s[b].0);
            }
        }
        lemma_assoc_value(d, i);
        assert(s[i].0 != s[s.len() - 1].0);
    }
}

/// Inserting a pair with a new key at any position inserts it into the map.
pub proof fn lemma_assoc_insert_at<K, V>(s: Seq<(K, V)>, i: int, k: K, v: V)
    requires
        unique_keys(s),
        !has_key(s, k),
        0 <= i <= s.len(),
    ensures
        assoc_map(s.insert(i, (k, v))) == assoc_map(s).insert(k, v),
        unique_keys(s.insert(i, (k, v))),
{
    let t = s.insert(i, (k, v));
    assert forall|a: int, b: int| 0 <= a < t.len() && 0 <= b < t.len() && a != b implies t[a].0
        != t[b].0 by {
        if a != i && b != i {
            let sa = if a < i { a } else { a - 1 };
            let sb = if b < i { b } else { b - 1 };
            assert(t[a] == s[sa] && t[b] == s[sb]);
        } else if a == i {
            let sb = if b < i { b } else { b - 1 };
            assert(t[b] == s[sb]);
        } else {
            let sa = if a < i { a } else { a - 1 };
            assert(t[a] == s[sa]);
        }
    }
    let m1 = assoc_map(t);
    let m2 = assoc_map(s).insert(k, v);
    assert forall|key: K| #[trigger] m1.contains_key(key) == m2.contains_key(key) by {
        lemma_assoc_contains(t, key);
        lemma_assoc_contains(s, key);
        if has_key(s, key) {
            let j = choose|j: int| 0 <= j < s.len() && s[j].0 == key;
            let tj = if j < i { j } else { j + 1 };
            assert(t[tj].0 == key);
        }
        if key == k {
            assert(t[i].0 == key);
        }
        if has_key(t, key) && key != k {
            let j = choose|j: int| 0 <= j < t.len() && t[j].0 == key;
            let sj = if j < i { j } else { j - 1 };
            assert(s[sj].0 == key);
        }
    }
    assert forall|key: K| m1.contains_key(key) implies #[trigger] m1[key] == m2[key] by {
        lemma_assoc_contains(t, key);
        let j = choose|j: int| 0 <= j < t.len() && t[j].0 == key;
        lemma_assoc_value(t, j);
        if j != i {
            let sj = if j < i { j } else { j - 1 };
            assert(t[j] == s[sj]);
            lemma_assoc_value(s, sj);
        }
    }
    assert(m1 =~= m2);
}

} // verus!
