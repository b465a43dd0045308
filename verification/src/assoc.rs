//! Association sequences and their map view.
//!
//! The state store keeps each substate as an append-only sequence of
//! (key, value) pairs; its mathematical content is the map in which
//! the last write to a key wins.  These lemmas connect the two.

use vstd::prelude::*;

verus! {

/// The map described by an association sequence: later pairs shadow
/// earlier ones.
pub open spec fn assoc_map<K, V>(s: Seq<(K, V)>) -> Map<K, V>
    decreases s.len(),
{
    if s.len() == 0 {
        Map::empty()
    } else {
        assoc_map(s.drop_last()).insert(s.last().0, s.last().1)
    }
}

/// Appending a pair inserts it into the map view.
pub proof fn lemma_assoc_map_push<K, V>(s: Seq<(K, V)>, k: K, v: V)
    ensures
        assoc_map(s.push((k, v))) == assoc_map(s).insert(k, v),
{
    assert(s.push((k, v)).drop_last() =~= s);
    assert(s.push((k, v)).last() == (k, v));
}

/// A key is in the map view exactly when some pair carries it.
pub proof fn lemma_assoc_map_contains<K, V>(s: Seq<(K, V)>, k: K)
    ensures
        assoc_map(s).dom().contains(k) <==> exists|i: int|
            0 <= i < s.len() && #[trigger] s[i].0 == k,
    decreases s.len(),
{
    if s.len() > 0 {
        let t = s.drop_last();
        lemma_assoc_map_contains(t, k);
        if s.last().0 == k {
            assert(s[s.len() - 1].0 == k);
        } else {
            if exists|i: int| 0 <= i < t.len() && #[trigger] t[i].0 == k {
                let i = choose|i: int| 0 <= i < t.len() && #[trigger] t[i].0 == k;
                assert(s[i].0 == k);
            }
            if exists|i: int| 0 <= i < s.len() && #[trigger] s[i].0 == k {
                let i = choose|i: int| 0 <= i < s.len() && #[trigger] s[i].0 == k;
                assert(t[i].0 == k);
            }
        }
    }
}

/// The value under a key is the one of the last pair that carries it.
pub proof fn lemma_assoc_map_last<K, V>(s: Seq<(K, V)>, i: int)
    requires
        0 <= i < s.len(),
        forall|j: int| i < j < s.len() ==> #[trigger] s[j].0 != s[i].0,
    ensures
        assoc_map(s).dom().contains(s[i].0),
        assoc_map(s)[s[i].0] == s[i].1,
    decreases s.len(),
{
    if i == s.len() - 1 {
    } else {
        let t = s.drop_last();
        assert(forall|j: int| i < j < t.len() ==> #[trigger] t[j].0 != t[i].0);
        lemma_assoc_map_last(t, i);
        assert(s.last().0 != s[i].0);
    }
}

/// The sequence reversed.
pub open spec fn rev<T>(s: Seq<T>) -> Seq<T>
    decreases s.len(),
{
    if s.len() == 0 {
        s
    } else {
        seq![s.last()] + rev(s.drop_last())
    }
}

/// The sequence with every pair of the given key dropped.
pub open spec fn drop_key<K, V>(s: Seq<(K, V)>, k: K) -> Seq<(K, V)>
    decreases s.len(),
{
    if s.len() == 0 {
        s
    } else if s.last().0 == k {
        drop_key(s.drop_last(), k)
    } else {
        drop_key(s.drop_last(), k).push(s.last())
    }
}

/// Dropping every pair of a key removes that key from the map view
/// and leaves all others as they were.
pub proof fn lemma_assoc_map_drop_key<K, V>(s: Seq<(K, V)>, k: K)
    ensures
        assoc_map(drop_key(s, k)) == assoc_map(s).remove(k),
    decreases s.len(),
{
    if s.len() == 0 {
        assert(assoc_map(s).remove(k) =~= Map::<K, V>::empty());
    } else {
        let t = s.drop_last();
        let last = s.last();
        lemma_assoc_map_drop_key(t, k);
        if last.0 == k {
            assert(assoc_map(t).remove(k) =~= assoc_map(t).insert(last.0, last.1).remove(k));
        } else {
            lemma_assoc_map_push(drop_key(t, k), last.0, last.1);
            assert(assoc_map(t).remove(k).insert(last.0, last.1) =~= assoc_map(t).insert(
                last.0,
                last.1,
            ).remove(k));
        }
    }
}

} // verus!
