//! Lists of keyed entries read as maps: later entries replace earlier
//! ones with the same key, as when the entries are inserted into a map in order.
use vstd::prelude::*;

verus! {

/// The map that inserting the entries in order gives.
pub open spec fn entries_map<K, C>(s: Seq<(K, C)>) -> Map<K, C>
    decreases s.len(),
{
    if s.len() == 0 {
        Map::empty()
    } else {
        entries_map(s.drop_last()).insert(s.last().0, s.last().1)
    }
}

/// No key occurs twice.
pub open spec fn keys_unique<K, C>(s: Seq<(K, C)>) -> bool {
    forall|i: int, j: int| 0 <= i < j < s.len() ==> (#[trigger] s[i]).0 != (#[trigger] s[j]).0
}

/// The keys of the entries, in order.
pub open spec fn entry_keys<K, C>(s: Seq<(K, C)>) -> Seq<K> {
    s.map_values(|e: (K, C)| e.0)
}

/// The map has exactly the keys of the entries.
pub proof fn lemma_entries_dom<K, C>(s: Seq<(K, C)>)
    ensures
        forall|k: K| entries_map(s).contains_key(k) <==> exists|i: int| 0 <= i < s.len() && (#[trigger] s[i]).0 == k,
        entries_map(s).dom().finite(),
    decreases s.len(),
{
    if s.len() > 0 {
        lemma_entries_dom(s.drop_last());
        assert forall|k: K| entries_map(s).contains_key(k) <==> exists|i: int| 0 <= i < s.len() && (#[trigger] s[i]).0 == k by {
            if entries_map(s).contains_key(k) && k != s.last().0 {
                let i = choose|i: int| 0 <= i < s.drop_last().len() && (#[trigger] s.drop_last()[i]).0 == k;
                assert(s[i].0 == k);
            }
            if exists|i: int| 0 <= i < s.len() && (#[trigger] s[i]).0 == k {
                let i = choose|i: int| 0 <= i < s.len() && (#[trigger] s[i]).0 == k;
                if i < s.len() - 1 {
                    assert(s.drop_last()[i].0 == k);
                }
            }
        }
    }
}

/// With unique keys, each entry's key maps to its value.
pub proof fn lemma_entries_lookup<K, C>(s: Seq<(K, C)>, p: int)
    requires
        keys_unique(s),
        0 <= p < s.len(),
    ensures
        entries_map(s).contains_key(s[p].0),
        entries_map(s)[s[p].0] == s[p].1,
    decreases s.len(),
{
    if p < s.len() - 1 {
        assert(keys_unique(s.drop_last()));
        lemma_entries_lookup(s.drop_last(), p);
        assert(s.drop_last()[p] == s[p]);
        assert(s[p].0 != s[s.len() - 1].0);
    }
}

/// A key that no entry has is not in the map.
pub proof fn lemma_entries_absent<K, C>(s: Seq<(K, C)>, k: K)
    requires
        forall|i: int| 0 <= i < s.len() ==> (#[trigger] s[i]).0 != k,
    ensures
        !entries_map(s).contains_key(k),
{
    lemma_entries_dom(s);
}

/// Replacing the value of an entry replaces it in the map.
pub proof fn lemma_entries_update<K, C>(s: Seq<(K, C)>, p: int, v: C)
    requires
        keys_unique(s),
        0 <= p < s.len(),
    ensures
        keys_unique(s.update(p, (s[p].0, v))),
        entries_map(s.update(p, (s[p].0, v))) == entries_map(s).insert(s[p].0, v),
    decreases s.len(),
{
    let t = s.update(p, (s[p].0, v));
    let k = s[p].0;
    assert(keys_unique(t));
    if p == s.len() - 1 {
        assert(t.drop_last() =~= s.drop_last());
        assert(entries_map(t) =~= entries_map(s).insert(k, v));
    } else {
        assert(keys_unique(s.drop_last()));
        lemma_entries_update(s.drop_last(), p, v);
        assert(t.drop_last() =~= s.drop_last().update(p, (k, v)));
        assert(t.last() == s.last());
        assert(s.last().0 != k);
        assert(entries_map(t) =~= entries_map(s).insert(k, v));
    }
}

/// With unique keys, the map has as many keys as there are entries, and
/// they are the entries' keys.
pub proof fn lemma_entries_len<K, C>(s: Seq<(K, C)>)
    requires
        keys_unique(s),
    ensures
        entries_map(s).dom().finite(),
        entries_map(s).dom().len() == s.len(),
        entries_map(s).dom() == entry_keys(s).to_set(),
        entry_keys(s).no_duplicates(),
    decreases s.len(),
{
    lemma_entries_dom(s);
    if s.len() > 0 {
        assert(keys_unique(s.drop_last()));
        lemma_entries_len(s.drop_last());
        lemma_entries_dom(s.drop_last());
        assert(!entries_map(s.drop_last()).contains_key(s.last().0)) by {
            if entries_map(s.drop_last()).contains_key(s.last().0) {
                let i = choose|i: int| 0 <= i < s.drop_last().len() && (#[trigger] s.drop_last()[i]).0 == s.last().0;
                assert(s[i].0 == s[s.len() - 1].0);
            }
        }
    }
    assert(entries_map(s).dom() =~= entry_keys(s).to_set()) by {
        assert forall|k: K| entries_map(s).dom().contains(k) <==> entry_keys(s).to_set().contains(k) by {
            if entries_map(s).dom().contains(k) {
                let i = choose|i: int| 0 <= i < s.len() && (#[trigger] s[i]).0 == k;
                assert(entry_keys(s)[i] == k);
            }
            if entry_keys(s).to_set().contains(k) {
                let i = choose|i: int| 0 <= i < entry_keys(s).len() && entry_keys(s)[i] == k;
                assert(s[i].0 == k);
            }
        }
    }
}

/// Entries that agree in their keys and hold clones of each other's values
/// give maps with the same keys and cloned values.
pub proof fn lemma_entries_cloned<K, C: Clone>(s1: Seq<(K, C)>, s2: Seq<(K, C)>)
    requires
        s1.len() == s2.len(),
        forall|j: int| 0 <= j < s1.len() ==> (#[trigger] s1[j]).0 == s2[j].0 && cloned(s1[j].1, s2[j].1),
    ensures
        entries_map(s1).dom() == entries_map(s2).dom(),
        forall|k: K| #[trigger] entries_map(s1).contains_key(k) ==> cloned(entries_map(s1)[k], entries_map(s2)[k]),
    decreases s1.len(),
{
    if s1.len() > 0 {
        let a = s1.drop_last();
        let b = s2.drop_last();
        assert forall|j: int| 0 <= j < a.len() implies (#[trigger] a[j]).0 == b[j].0 && cloned(a[j].1, b[j].1) by {
            assert(a[j] == s1[j]);
            assert(b[j] == s2[j]);
        }
        lemma_entries_cloned(a, b);
        assert(s1.last() == s1[s1.len() - 1]);
        assert(s2.last() == s2[s2.len() - 1]);
        assert(entries_map(s1).dom() =~= entries_map(s2).dom());
    }
}

} // verus!
