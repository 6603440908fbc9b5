//! An association list from strings to values: the model behind the route
//! table and the shader location cache.
//!
//! The list is read as a map from key text to value; a key present twice
//! means its later value. The exec types that build on this keep their keys
//! unique, which pins every lookup down.

use vstd::prelude::*;

verus! {

/// The mapping an entry list stands for; a key present twice means its
/// later value.
pub open spec fn map_of<V>(entries: Seq<(String, V)>) -> Map<Seq<char>, V>
    decreases entries.len(),
{
    if entries.len() == 0 {
        Map::empty()
    } else {
        map_of(entries.drop_last()).insert(entries.last().0@, entries.last().1)
    }
}

/// Whether some entry carries the key `k`.
pub open spec fn has_key<V>(entries: Seq<(String, V)>, k: Seq<char>) -> bool {
    exists|i: int| 0 <= i < entries.len() && entries[i].0@ == k
}

/// No two entries carry the same key.
pub open spec fn unique_keys<V>(entries: Seq<(String, V)>) -> bool {
    forall|i: int, j: int|
        0 <= i < j < entries.len() ==> (#[trigger] entries[i].0@) != (#[trigger] entries[j].0@)
}

/// The map holds exactly the keys some entry carries.
pub proof fn lemma_map_of_domain<V>(entries: Seq<(String, V)>)
    ensures
        forall|k: Seq<char>| #[trigger] map_of(entries).contains_key(k) <==> has_key(entries, k),
    decreases entries.len(),
{
    if entries.len() == 0 {
    } else {
        lemma_map_of_domain(entries.drop_last());
        assert forall|k: Seq<char>| #[trigger] map_of(entries).contains_key(k) implies has_key(
            entries,
            k,
        ) by {
            if k == entries.last().0@ {
                assert(entries[entries.len() - 1].0@ == k);
            } else {
                assert(map_of(entries.drop_last()).contains_key(k));
                assert(has_key(entries.drop_last(), k));
                let i = choose|i: int|
                    0 <= i < entries.drop_last().len() && entries.drop_last()[i].0@ == k;
                assert(entries[i].0@ == k);
            }
        }
        assert forall|k: Seq<char>| has_key(entries, k) implies #[trigger] map_of(
            entries,
        ).contains_key(k) by {
            let i = choose|i: int| 0 <= i < entries.len() && entries[i].0@ == k;
            if i < entries.len() - 1 {
                assert(entries.drop_last()[i].0@ == k);
                assert(has_key(entries.drop_last(), k));
                assert(map_of(entries.drop_last()).contains_key(k));
            } else {
                assert(k == entries.last().0@);
            }
        }
    }
}

/// An entry whose key no other entry carries decides the map at that key.
pub proof fn lemma_map_of_at<V>(entries: Seq<(String, V)>, i: int)
    requires
        0 <= i < entries.len(),
        forall|j: int|
            0 <= j < entries.len() && j != i ==> (#[trigger] entries[j].0@) != entries[i].0@,
    ensures
        map_of(entries).contains_key(entries[i].0@),
        map_of(entries)[entries[i].0@] == entries[i].1,
    decreases entries.len(),
{
    if i == entries.len() - 1 {
    } else {
        assert(entries.drop_last()[i] == entries[i]);
        lemma_map_of_at(entries.drop_last(), i);
        assert(entries.last().0@ != entries[i].0@);
    }
}

/// Overwriting the one entry that carries a key inserts into the map.
pub proof fn lemma_map_of_update<V>(entries: Seq<(String, V)>, i: int, p: (String, V))
    requires
        0 <= i < entries.len(),
        entries[i].0@ == p.0@,
        forall|j: int|
            0 <= j < entries.len() && j != i ==> (#[trigger] entries[j].0@) != entries[i].0@,
    ensures
        map_of(entries.update(i, p)) == map_of(entries).insert(p.0@, p.1),
    decreases entries.len(),
{
    let upd = entries.update(i, p);
    if i == entries.len() - 1 {
        assert(upd.drop_last() =~= entries.drop_last());
        assert(upd.last() == p);
        assert(map_of(entries.drop_last()).insert(p.0@, p.1) =~= map_of(entries.drop_last())
            .insert(entries[i].0@, entries[i].1).insert(p.0@, p.1));
    } else {
        assert(upd.drop_last() =~= entries.drop_last().update(i, p));
        assert(upd.last() == entries.last());
        assert forall|j: int|
            0 <= j < entries.drop_last().len() && j != i implies (
        #[trigger] entries.drop_last()[j].0@) != entries.drop_last()[i].0@ by {
            assert(entries.drop_last()[j] == entries[j]);
        }
        lemma_map_of_update(entries.drop_last(), i, p);
        assert(entries.last().0@ != p.0@);
        assert(map_of(entries.drop_last()).insert(p.0@, p.1).insert(
            entries.last().0@,
            entries.last().1,
        ) =~= map_of(entries.drop_last()).insert(entries.last().0@, entries.last().1).insert(
            p.0@,
            p.1,
        ));
    }
}

} // verus!
