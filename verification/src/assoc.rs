//! Association lists: a sequence of key-value pairs in which no key occurs
//! twice, read as a map.

use vstd::prelude::*;

verus! {

/// No key occurs twice.
pub open spec fn assoc_unique<K, V>(pairs: Seq<(K, V)>) -> bool {
    forall|i: int, j: int|
        0 <= i < pairs.len() && 0 <= j < pairs.len() && (#[trigger] pairs[i]).0 == (
        #[trigger] pairs[j]).0 ==> i == j
}

/// Whether the key occurs.
pub open spec fn assoc_has<K, V>(pairs: Seq<(K, V)>, key: K) -> bool {
    exists|i: int| 0 <= i < pairs.len() && (#[trigger] pairs[i]).0 == key
}

/// A place where the key occurs.
pub open spec fn assoc_index<K, V>(pairs: Seq<(K, V)>, key: K) -> int {
    choose|i: int| 0 <= i < pairs.len() && (#[trigger] pairs[i]).0 == key
}

/// The pairs as a map from each key to its value.
pub open spec fn assoc_map<K, V>(pairs: Seq<(K, V)>) -> Map<K, V> {
    Map::new(|key: K| assoc_has(pairs, key), |key: K| pairs[assoc_index(pairs, key)].1)
}

/// Each pair of a list without repeated keys is an entry of its map.
pub proof fn lemma_assoc_entry<K, V>(pairs: Seq<(K, V)>, i: int)
    requires
        assoc_unique(pairs),
        0 <= i < pairs.len(),
    ensures
        assoc_map(pairs).contains_key(pairs[i].0),
        assoc_map(pairs)[pairs[i].0] == pairs[i].1,
{
    let key = pairs[i].0;
    assert(assoc_has(pairs, key));
    let j = assoc_index(pairs, key);
    assert(pairs[j].0 == pairs[i].0);
}

/// A pair with a new key, put at the end, is a new entry of the map.
pub proof fn lemma_assoc_push<K, V>(pairs: Seq<(K, V)>, key: K, value: V)
    requires
        assoc_unique(pairs),
        !assoc_has(pairs, key),
    ensures
        assoc_unique(pairs.push((key, value))),
        assoc_map(pairs.push((key, value))) == assoc_map(pairs).insert(key, value),
{
    let longer = pairs.push((key, value));
    assert forall|i: int, j: int|
        0 <= i < longer.len() && 0 <= j < longer.len() && (#[trigger] longer[i]).0 == (
        #[trigger] longer[j]).0 implies i == j by {
        if i < pairs.len() {
            assert(longer[i] == pairs[i]);
        }
        if j < pairs.len() {
            assert(longer[j] == pairs[j]);
        }
    }
    assert forall|k: K| #[trigger]
        assoc_map(longer).contains_key(k) == assoc_map(pairs).insert(key, value).contains_key(
            k,
        ) by {
        if assoc_has(longer, k) {
            let i = assoc_index(longer, k);
            if i < pairs.len() {
                assert(pairs[i] == longer[i]);
            }
        }
        if assoc_has(pairs, k) {
            let i = assoc_index(pairs, k);
            assert(longer[i] == pairs[i]);
        }
        if k == key {
            assert(longer[pairs.len() as int].0 == key);
        }
    }
    assert forall|k: K| #[trigger] assoc_map(longer).contains_key(k) implies assoc_map(longer)[k]
        == assoc_map(pairs).insert(key, value)[k] by {
        let i = assoc_index(longer, k);
        lemma_assoc_entry(longer, i);
        if i < pairs.len() {
            assert(longer[i] == pairs[i]);
            lemma_assoc_entry(pairs, i);
        }
    }
    assert(assoc_map(longer) =~= assoc_map(pairs).insert(key, value));
}

/// Taking a pair out takes its key out of the map and leaves the rest.
pub proof fn lemma_assoc_remove<K, V>(pairs: Seq<(K, V)>, at: int)
    requires
        assoc_unique(pairs),
        0 <= at < pairs.len(),
    ensures
        assoc_unique(pairs.remove(at)),
        assoc_map(pairs.remove(at)) == assoc_map(pairs).remove(pairs[at].0),
{
    let shorter = pairs.remove(at);
    let key = pairs[at].0;
    assert forall|i: int| 0 <= i < shorter.len() implies #[trigger] shorter[i] == pairs[if i
        < at {
        i
    } else {
        i + 1
    }] by {}
    assert forall|i: int, j: int|
        0 <= i < shorter.len() && 0 <= j < shorter.len() && (#[trigger] shorter[i]).0 == (
        #[trigger] shorter[j]).0 implies i == j by {
        let oi = if i < at {
            i
        } else {
            i + 1
        };
        let oj = if j < at {
            j
        } else {
            j + 1
        };
        assert(shorter[i] == pairs[oi]);
        assert(shorter[j] == pairs[oj]);
    }
    assert forall|k: K| #[trigger]
        assoc_map(shorter).contains_key(k) == assoc_map(pairs).remove(key).contains_key(k) by {
        if assoc_has(shorter, k) {
            let i = assoc_index(shorter, k);
            let oi = if i < at {
                i
            } else {
                i + 1
            };
            assert(shorter[i] == pairs[oi]);
            assert(pairs[oi].0 == k);
        }
        if assoc_has(pairs, k) && k != key {
            let oi = assoc_index(pairs, k);
            let i = if oi < at {
                oi
            } else {
                oi - 1
            };
            assert(shorter[i] == pairs[oi]);
        }
    }
    assert forall|k: K| #[trigger] assoc_map(shorter).contains_key(k) implies assoc_map(
        shorter,
    )[k] == assoc_map(pairs).remove(key)[k] by {
        let i = assoc_index(shorter, k);
        let oi = if i < at {
            i
        } else {
            i + 1
        };
        assert(shorter[i] == pairs[oi]);
        lemma_assoc_entry(shorter, i);
        lemma_assoc_entry(pairs, oi);
    }
    assert(assoc_map(shorter) =~= assoc_map(pairs).remove(key));
}

/// The map of a list without repeated keys has as many keys as the list has
/// pairs.
pub proof fn lemma_assoc_domain<K, V>(pairs: Seq<(K, V)>)
    requires
        assoc_unique(pairs),
    ensures
        assoc_map(pairs).dom().finite(),
        assoc_map(pairs).dom().len() == pairs.len(),
    decreases pairs.len(),
{
    if pairs.len() == 0 {
        assert(assoc_map(pairs).dom() =~= Set::<K>::empty());
    } else {
        let last = pairs.len() - 1;
        lemma_assoc_remove(pairs, last);
        assert(pairs.remove(last) =~= pairs.drop_last());
        lemma_assoc_domain(pairs.drop_last());
        lemma_assoc_entry(pairs, last);
        let rest = assoc_map(pairs.drop_last()).dom();
        assert(assoc_map(pairs).dom() =~= rest.insert(pairs[last].0));
        assert(!rest.contains(pairs[last].0));
    }
}

} // verus!
