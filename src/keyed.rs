//! The map that a sequence of entries with distinct string keys stands for,
//! and how it follows the sequence through the edits the library makes.

use vstd::prelude::*;

verus! {

/// Whether no two entries of `p` share a key.
pub open spec fn keys_unique<V>(p: Seq<(Seq<char>, V)>) -> bool {
    forall|i: int, j: int| 0 <= i < j < p.len() ==> p[i].0 != p[j].0
}

/// The map from each key of `p` to its entry's value (a later entry wins,
/// which matters only when keys repeat).
pub open spec fn pairs_map<V>(p: Seq<(Seq<char>, V)>) -> Map<Seq<char>, V>
    decreases p.len(),
{
    if p.len() == 0 {
        Map::empty()
    } else {
        pairs_map(p.drop_last()).insert(p.last().0, p.last().1)
    }
}

/// A key is in the map exactly when some entry has it.
pub proof fn lemma_pairs_map_dom<V>(p: Seq<(Seq<char>, V)>, k: Seq<char>)
    ensures
        pairs_map(p).contains_key(k) <==> exists|i: int| 0 <= i < p.len() && p[i].0 == k,
    decreases p.len(),
{
    if p.len() > 0 {
        lemma_pairs_map_dom(p.drop_last(), k);
        if pairs_map(p).contains_key(k) && k != p.last().0 {
            let i = choose|i: int| 0 <= i < p.drop_last().len() && p.drop_last()[i].0 == k;
            assert(p[i].0 == k);
        }
        if exists|i: int| 0 <= i < p.len() && p[i].0 == k {
            let i = choose|i: int| 0 <= i < p.len() && p[i].0 == k;
            if i < p.len() - 1 {
                assert(p.drop_last()[i].0 == k);
            }
        }
    }
}

/// With distinct keys, each entry's key maps to that entry's value.
pub proof fn lemma_pairs_map_get<V>(p: Seq<(Seq<char>, V)>, i: int)
    requires
        keys_unique(p),
        0 <= i < p.len(),
    ensures
        pairs_map(p).contains_key(p[i].0),
        pairs_map(p)[p[i].0] == p[i].1,
    decreases p.len(),
{
    if i < p.len() - 1 {
        let q = p.drop_last();
        assert(keys_unique(q));
        assert(q[i] == p[i]);
        lemma_pairs_map_get(q, i);
        assert(p.last().0 != p[i].0);
    }
}

/// Appending an entry with a new key inserts it.
pub proof fn lemma_pairs_map_push<V>(p: Seq<(Seq<char>, V)>, k: Seq<char>, v: V)
    ensures
        pairs_map(p.push((k, v))) == pairs_map(p).insert(k, v),
{
    assert(p.push((k, v)).drop_last() =~= p);
}

/// Replacing the value of an entry updates its key.
pub proof fn lemma_pairs_map_update<V>(p: Seq<(Seq<char>, V)>, i: int, v: V)
    requires
        keys_unique(p),
        0 <= i < p.len(),
    ensures
        pairs_map(p.update(i, (p[i].0, v))) == pairs_map(p).insert(p[i].0, v),
    decreases p.len(),
{
    let k = p[i].0;
    let q = p.update(i, (k, v));
    if i == p.len() - 1 {
        assert(q.drop_last() =~= p.drop_last());
        assert(pairs_map(q) =~= pairs_map(p).insert(k, v));
    } else {
        let d = p.drop_last();
        assert(keys_unique(d));
        assert(q.drop_last() =~= d.update(i, (k, v)));
        lemma_pairs_map_update(d, i, v);
        assert(p.last().0 != k);
        assert(pairs_map(q) =~= pairs_map(p).insert(k, v));
    }
}

/// Removing an entry removes its key.
pub proof fn lemma_pairs_map_remove<V>(p: Seq<(Seq<char>, V)>, i: int)
    requires
        keys_unique(p),
        0 <= i < p.len(),
    ensures
        pairs_map(p.remove(i)) == pairs_map(p).remove(p[i].0),
    decreases p.len(),
{
    let k = p[i].0;
    let q = p.remove(i);
    if i == p.len() - 1 {
        assert(q =~= p.drop_last());
        lemma_pairs_map_dom(q, k);
        assert(pairs_map(q) =~= pairs_map(p).remove(k));
    } else {
        let d = p.drop_last();
        assert(keys_unique(d));
        assert(q.drop_last() =~= d.remove(i));
        assert(q.last() == p.last());
        lemma_pairs_map_remove(d, i);
        assert(p.last().0 != k);
        assert(pairs_map(q) =~= pairs_map(p).remove(k));
    }
}

/// With distinct keys, the map has one key per entry.
pub proof fn lemma_pairs_map_len<V>(p: Seq<(Seq<char>, V)>)
    requires
        keys_unique(p),
    ensures
        pairs_map(p).dom().finite(),
        pairs_map(p).len() == p.len(),
    decreases p.len(),
{
    if p.len() > 0 {
        let d = p.drop_last();
        assert(keys_unique(d));
        lemma_pairs_map_len(d);
        lemma_pairs_map_dom(d, p.last().0);
        assert(!pairs_map(d).contains_key(p.last().0));
    }
}

} // verus!
