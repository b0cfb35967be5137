//! Merge strategies for hash maps.

use crate::Merge;
use std::collections::HashMap;
use std::hash::Hash;
use vstd::prelude::*;
use vstd::std_specs::hash::obeys_key_model;

verus! {

broadcast use vstd::std_specs::hash::group_hash_axioms;

/// The set of keys occurring in a sequence of key-value pairs.
pub open spec fn key_set<K, V>(pairs: Seq<(K, V)>) -> Set<K> {
    Set::new(|k: K| exists|i: int| 0 <= i < pairs.len() && (#[trigger] pairs[i]).0 == k)
}

/// Relies on `HashMap::drain`: yields every entry of the map exactly once, in
/// arbitrary order, and leaves the map empty.  Nothing is stated about the
/// order of the returned pairs.
#[verifier::external_body]
fn take_entries<K, V>(m: &mut HashMap<K, V>) -> (entries: Vec<(K, V)>)
    ensures
        final(m)@.dom() == Set::<K>::empty(),
        obeys_key_model::<K>() ==> entries@.len() == old(m)@.dom().len(),
        obeys_key_model::<K>() ==> (forall|i: int|
            0 <= i < entries@.len() ==> old(m)@.contains_key((#[trigger] entries@[i]).0) && old(
                m,
            )@[entries@[i].0] == entries@[i].1),
        obeys_key_model::<K>() ==> (forall|k: K|
            #[trigger] old(m)@.contains_key(k) ==> key_set(entries@).contains(k)),
        obeys_key_model::<K>() ==> entries@.map_values(|p: (K, V)| p.0).no_duplicates(),
{
    m.drain().collect()
}

/// The distinctness of the pairs' keys, stated pairwise.
spec fn distinct_keys<K, V>(pairs: Seq<(K, V)>) -> bool {
    forall|i: int, j: int|
        0 <= i < pairs.len() && 0 <= j < pairs.len() && i != j ==> (#[trigger] pairs[i]).0 != (
        #[trigger] pairs[j]).0
}

proof fn lemma_no_duplicate_keys_is_distinct<K, V>(pairs: Seq<(K, V)>)
    requires
        pairs.map_values(|p: (K, V)| p.0).no_duplicates(),
    ensures
        distinct_keys(pairs),
{
    let keys = pairs.map_values(|p: (K, V)| p.0);
    assert forall|i: int, j: int|
        0 <= i < pairs.len() && 0 <= j < pairs.len() && i != j implies (#[trigger] pairs[i]).0 != (
    #[trigger] pairs[j]).0 by {
        assert(keys[i] == pairs[i].0);
        assert(keys[j] == pairs[j].0);
    }
}

/// Popping the last pair off a sequence splits its key set into the popped
/// key and the key set of the rest; with distinct keys, the popped key is not
/// among the rest.
proof fn lemma_key_set_pop<K, V>(prev: Seq<(K, V)>, rest: Seq<(K, V)>, pair: (K, V))
    requires
        prev.len() > 0,
        rest == prev.subrange(0, prev.len() - 1),
        pair == prev[prev.len() - 1],
    ensures
        key_set(prev) =~= key_set(rest).insert(pair.0),
        distinct_keys(prev) ==> !key_set(rest).contains(pair.0),
        distinct_keys(prev) ==> distinct_keys(rest),
{
    assert forall|k: K| key_set(prev).contains(k) implies key_set(rest).insert(
        pair.0,
    ).contains(k) by {
        let i = choose|i: int| 0 <= i < prev.len() && (#[trigger] prev[i]).0 == k;
        if i < prev.len() - 1 {
            assert(rest[i] == prev[i]);
            assert(key_set(rest).contains(k));
        }
    }
    assert forall|k: K| key_set(rest).insert(pair.0).contains(k) implies key_set(
        prev,
    ).contains(k) by {
        if k == pair.0 {
            assert((prev[prev.len() - 1]).0 == k);
        } else {
            let i = choose|i: int| 0 <= i < rest.len() && (#[trigger] rest[i]).0 == k;
            assert(prev[i] == rest[i]);
        }
    }
    if distinct_keys(prev) && key_set(rest).contains(pair.0) {
        let i = choose|i: int| 0 <= i < rest.len() && (#[trigger] rest[i]).0 == pair.0;
        assert(prev[i] == rest[i]);
        assert((prev[prev.len() - 1]).0 == (prev[i]).0);
    }
}

/// On key collision, keep the entry already in `left`: afterwards `left`
/// holds the union of both mappings, with precedence given to `left`.
///
/// `right` is drained to the empty map.
pub fn merge<K: Eq + Hash, V>(left: &mut HashMap<K, V>, right: &mut HashMap<K, V>)
    ensures
        obeys_key_model::<K>() ==> final(left)@ == old(right)@.union_prefer_right(old(left)@),
        final(right)@ == Map::<K, V>::empty(),
{
    let mut entries = take_entries(right);
    proof {
        assert(right@ =~= Map::<K, V>::empty());
        if obeys_key_model::<K>() {
            lemma_no_duplicate_keys_is_distinct(entries@);
            assert(old(right)@.remove_keys(key_set(entries@)).union_prefer_right(old(left)@)
                =~= left@);
        }
    }
    while entries.len() > 0
        invariant
            obeys_key_model::<K>() ==> {
                &&& (forall|i: int|
                    0 <= i < entries@.len() ==> old(right)@.contains_key(
                        (#[trigger] entries@[i]).0,
                    ) && old(right)@[entries@[i].0] == entries@[i].1)
                &&& distinct_keys(entries@)
                &&& left@ == old(right)@.remove_keys(key_set(entries@)).union_prefer_right(
                    old(left)@,
                )
            },
        decreases entries.len(),
    {
        let ghost prev = entries@;
        let pair = entries.pop().unwrap();
        proof {
            if obeys_key_model::<K>() {
                lemma_key_set_pop(prev, entries@, pair);
                assert(old(right)@.remove_keys(key_set(entries@)) =~= old(right)@.remove_keys(
                    key_set(prev),
                ).insert(pair.0, pair.1));
            }
        }
        if !left.contains_key(&pair.0) {
            left.insert(pair.0, pair.1);
        }
        proof {
            if obeys_key_model::<K>() {
                assert(left@ =~= old(right)@.remove_keys(key_set(entries@)).union_prefer_right(
                    old(left)@,
                ));
            }
        }
    }
    proof {
        if obeys_key_model::<K>() {
            assert(old(right)@.remove_keys(key_set(entries@)) =~= old(right)@);
            assert(left@ =~= old(right)@.union_prefer_right(old(left)@));
        }
    }
}

/// On key collision, replace the entry in `left` with the one from `right`:
/// afterwards `left` holds the union of both mappings, with precedence given
/// to `right`.
///
/// `right` is drained to the empty map.
pub fn replace<K: Eq + Hash, V>(left: &mut HashMap<K, V>, right: &mut HashMap<K, V>)
    ensures
        obeys_key_model::<K>() ==> final(left)@ == old(left)@.union_prefer_right(old(right)@),
        final(right)@ == Map::<K, V>::empty(),
{
    let mut entries = take_entries(right);
    proof {
        assert(right@ =~= Map::<K, V>::empty());
        if obeys_key_model::<K>() {
            lemma_no_duplicate_keys_is_distinct(entries@);
            assert(old(left)@.union_prefer_right(old(right)@.remove_keys(key_set(entries@)))
                =~= left@);
        }
    }
    while entries.len() > 0
        invariant
            obeys_key_model::<K>() ==> {
                &&& (forall|i: int|
                    0 <= i < entries@.len() ==> old(right)@.contains_key(
                        (#[trigger] entries@[i]).0,
                    ) && old(right)@[entries@[i].0] == entries@[i].1)
                &&& distinct_keys(entries@)
                &&& left@ == old(left)@.union_prefer_right(
                    old(right)@.remove_keys(key_set(entries@)),
                )
            },
        decreases entries.len(),
    {
        let ghost prev = entries@;
        let pair = entries.pop().unwrap();
        proof {
            if obeys_key_model::<K>() {
                lemma_key_set_pop(prev, entries@, pair);
                assert(old(right)@.remove_keys(key_set(entries@)) =~= old(right)@.remove_keys(
                    key_set(prev),
                ).insert(pair.0, pair.1));
            }
        }
        left.insert(pair.0, pair.1);
        proof {
            if obeys_key_model::<K>() {
                assert(left@ =~= old(left)@.union_prefer_right(
                    old(right)@.remove_keys(key_set(entries@)),
                ));
            }
        }
    }
    proof {
        if obeys_key_model::<K>() {
            assert(old(right)@.remove_keys(key_set(entries@)) =~= old(right)@);
            assert(left@ =~= old(left)@.union_prefer_right(old(right)@));
        }
    }
}


/// Whether `post` is a correct result of recursively merging mapping
/// `incoming` into mapping `target`: the union of both domains, where on key
/// collision the two values are merged by the value type's own [`Merge`].
pub open spec fn recursive_rel<K, V: Merge>(
    target: Map<K, V>,
    incoming: Map<K, V>,
    post: Map<K, V>,
) -> bool {
    &&& post.dom() == target.dom() + incoming.dom()
    &&& (forall|k: K|
        target.contains_key(k) && incoming.contains_key(k) ==> target[k].merge_rel(
            incoming[k],
            #[trigger] post[k],
        ))
    &&& (forall|k: K|
        target.contains_key(k) && !incoming.contains_key(k) ==> #[trigger] post[k] == target[k])
    &&& (forall|k: K|
        !target.contains_key(k) && incoming.contains_key(k) ==> #[trigger] post[k] == incoming[k])
}

/// On key collision, recursively merge the two values by the value type's own
/// [`Merge`]; entries unique to either side are kept as they are.
///
/// `right` is drained to the empty map.
pub fn recursive<K: Eq + Hash, V: Merge>(left: &mut HashMap<K, V>, right: &mut HashMap<K, V>)
    ensures
        obeys_key_model::<K>() ==> recursive_rel(old(left)@, old(right)@, final(left)@),
        final(right)@ == Map::<K, V>::empty(),
{
    let mut entries = take_entries(right);
    proof {
        assert(right@ =~= Map::<K, V>::empty());
        if obeys_key_model::<K>() {
            lemma_no_duplicate_keys_is_distinct(entries@);
            assert(old(left)@.dom() + old(right)@.remove_keys(key_set(entries@)).dom()
                =~= left@.dom());
        }
    }
    while entries.len() > 0
        invariant
            obeys_key_model::<K>() ==> {
                &&& (forall|i: int|
                    0 <= i < entries@.len() ==> old(right)@.contains_key(
                        (#[trigger] entries@[i]).0,
                    ) && old(right)@[entries@[i].0] == entries@[i].1)
                &&& distinct_keys(entries@)
                &&& recursive_rel(old(left)@, old(right)@.remove_keys(key_set(entries@)), left@)
            },
        decreases entries.len(),
    {
        let ghost prev = entries@;
        let pair = entries.pop().unwrap();
        let (key, mut incoming_value) = pair;
        proof {
            if obeys_key_model::<K>() {
                lemma_key_set_pop(prev, entries@, pair);
                assert(old(right)@.remove_keys(key_set(entries@)) =~= old(right)@.remove_keys(
                    key_set(prev),
                ).insert(key, incoming_value));
            }
        }
        match left.remove(&key) {
            Some(mut existing) => {
                existing.merge(&mut incoming_value);
                left.insert(key, existing);
            },
            None => {
                left.insert(key, incoming_value);
            },
        }
        proof {
            if obeys_key_model::<K>() {
                assert(left@.dom() =~= old(left)@.dom() + old(right)@.remove_keys(
                    key_set(entries@),
                ).dom());
                assert(recursive_rel(
                    old(left)@,
                    old(right)@.remove_keys(key_set(entries@)),
                    left@,
                ));
            }
        }
    }
    proof {
        if obeys_key_model::<K>() {
            assert(old(right)@.remove_keys(key_set(entries@)) =~= old(right)@);
        }
    }
}

/// Whether `post` is a correct result of intersecting mapping `incoming` with
/// mapping `target`: for keys present in both, the two values are merged by
/// the value type's own [`Merge`]; keys unique to `target` are unaffected and
/// entries unique to `incoming` are dropped.
pub open spec fn intersection_rel<K, V: Merge>(
    target: Map<K, V>,
    incoming: Map<K, V>,
    post: Map<K, V>,
) -> bool {
    &&& post.dom() == target.dom()
    &&& (forall|k: K|
        target.contains_key(k) && incoming.contains_key(k) ==> target[k].merge_rel(
            incoming[k],
            #[trigger] post[k],
        ))
    &&& (forall|k: K|
        target.contains_key(k) && !incoming.contains_key(k) ==> #[trigger] post[k] == target[k])
}

/// Recursively merge only the entries whose key is present in both `left` and
/// `right`; entries unique to `right` are dropped entirely.
///
/// `right` is drained to the empty map.
pub fn intersection<K: Eq + Hash, V: Merge>(left: &mut HashMap<K, V>, right: &mut HashMap<K, V>)
    ensures
        obeys_key_model::<K>() ==> intersection_rel(old(left)@, old(right)@, final(left)@),
        final(right)@ == Map::<K, V>::empty(),
{
    let mut entries = take_entries(right);
    proof {
        assert(right@ =~= Map::<K, V>::empty());
        if obeys_key_model::<K>() {
            lemma_no_duplicate_keys_is_distinct(entries@);
            assert(left@.dom() =~= old(left)@.dom());
        }
    }
    while entries.len() > 0
        invariant
            obeys_key_model::<K>() ==> {
                &&& (forall|i: int|
                    0 <= i < entries@.len() ==> old(right)@.contains_key(
                        (#[trigger] entries@[i]).0,
                    ) && old(right)@[entries@[i].0] == entries@[i].1)
                &&& distinct_keys(entries@)
                &&& intersection_rel(old(left)@, old(right)@.remove_keys(key_set(entries@)), left@)
            },
        decreases entries.len(),
    {
        let ghost prev = entries@;
        let pair = entries.pop().unwrap();
        let (key, mut incoming_value) = pair;
        proof {
            if obeys_key_model::<K>() {
                lemma_key_set_pop(prev, entries@, pair);
                assert(old(right)@.remove_keys(key_set(entries@)) =~= old(right)@.remove_keys(
                    key_set(prev),
                ).insert(key, incoming_value));
            }
        }
        if let Some(mut existing) = left.remove(&key) {
            existing.merge(&mut incoming_value);
            left.insert(key, existing);
        }
        proof {
            if obeys_key_model::<K>() {
                assert(left@.dom() =~= old(left)@.dom());
                assert(intersection_rel(
                    old(left)@,
                    old(right)@.remove_keys(key_set(entries@)),
                    left@,
                ));
            }
        }
    }
    proof {
        if obeys_key_model::<K>() {
            assert(old(right)@.remove_keys(key_set(entries@)) =~= old(right)@);
        }
    }
}

} // verus!
