//! Association lists with distinct keys, and the finite map such a list
//! stands for. The engine keys its pending requests and its per-thread
//! prompt states this way.

use vstd::prelude::*;

verus! {

/// No key is bound twice.
pub open spec fn distinct_keys<K, V>(s: Seq<(K, V)>) -> bool {
    forall|i: int, j: int| 0 <= i < j < s.len() ==> (#[trigger] s[i]).0 != (#[trigger] s[j]).0
}

/// The finite map an association list stands for; a later binding of a key
/// would shadow an earlier one.
pub open spec fn entry_map<K, V>(s: Seq<(K, V)>) -> Map<K, V>
    decreases s.len(),
{
    if s.len() == 0 {
        Map::empty()
    } else {
        entry_map(s.drop_last()).insert(s.last().0, s.last().1)
    }
}

pub proof fn lemma_entry_map_contains<K, V>(s: Seq<(K, V)>, k: K)
    ensures
        entry_map(s).contains_key(k) <==> exists|i: int|
            0 <= i < s.len() && (#[trigger] s[i]).0 == k,
    decreases s.len(),
{
    if s.len() > 0 {
        lemma_entry_map_contains(s.drop_last(), k);
        if entry_map(s).contains_key(k) {
            if s.last().0 == k {
                assert((s[s.len() - 1]).0 == k);
            } else {
                let t = s.drop_last();
                let i = choose|i: int| 0 <= i < t.len() && (#[trigger] t[i]).0 == k;
                assert((s[i]).0 == k);
            }
        }
        if exists|i: int| 0 <= i < s.len() && (#[trigger] s[i]).0 == k {
            let i = choose|i: int| 0 <= i < s.len() && (#[trigger] s[i]).0 == k;
            if i < s.len() - 1 {
                assert((s.drop_last()[i]).0 == k);
            }
        }
    }
}

pub proof fn lemma_entry_map_index<K, V>(s: Seq<(K, V)>, i: int)
    requires
        distinct_keys(s),
        0 <= i < s.len(),
    ensures
        entry_map(s).contains_key(s[i].0),
        entry_map(s)[s[i].0] == s[i].1,
    decreases s.len(),
{
    if i == s.len() - 1 {
    } else {
        assert(s.drop_last()[i] == s[i]);
        lemma_entry_map_index(s.drop_last(), i);
        assert(s[i].0 != s.last().0);
    }
}

pub proof fn lemma_entry_map_push<K, V>(s: Seq<(K, V)>, p: (K, V))
    ensures
        entry_map(s.push(p)) == entry_map(s).insert(p.0, p.1),
{
    assert(s.push(p).drop_last() =~= s);
    assert(s.push(p).last() == p);
}

/// A map fact used when a key that is absent is removed: nothing changes.
pub proof fn lemma_remove_absent<K, V>(m: Map<K, V>, k: K)
    requires
        !m.contains_key(k),
    ensures
        m.remove(k) == m,
{
    assert(m.remove(k) =~= m);
}

pub proof fn lemma_entry_map_remove<K, V>(s: Seq<(K, V)>, i: int)
    requires
        distinct_keys(s),
        0 <= i < s.len(),
    ensures
        entry_map(s.remove(i)) == entry_map(s).remove(s[i].0),
    decreases s.len(),
{
    let k = s[i].0;
    if i == s.len() - 1 {
        let t = s.drop_last();
        assert(s.remove(i) =~= t);
        lemma_entry_map_contains(t, k);
        assert forall|j: int| 0 <= j < t.len() implies (#[trigger] t[j]).0 != k by {
            assert(t[j] == s[j]);
        }
        assert(!entry_map(s.drop_last()).contains_key(k));
        lemma_remove_absent(entry_map(s.drop_last()), k);
        assert(entry_map(s.drop_last()).insert(k, s[i].1).remove(k) =~= entry_map(
            s.drop_last(),
        ).remove(k));
    } else {
        let t = s.drop_last();
        assert(t[i] == s[i]);
        lemma_entry_map_remove(t, i);
        assert(s.remove(i).drop_last() =~= t.remove(i));
        assert(s.remove(i).last() == s.last());
        assert(entry_map(s.remove(i)) == entry_map(t.remove(i)).insert(s.last().0, s.last().1));
        assert(k != s.last().0);
        assert(entry_map(t).remove(k).insert(s.last().0, s.last().1) =~= entry_map(t).insert(
            s.last().0,
            s.last().1,
        ).remove(k));
    }
}

pub proof fn lemma_entry_map_update<K, V>(s: Seq<(K, V)>, i: int, p: (K, V))
    requires
        distinct_keys(s),
        0 <= i < s.len(),
        p.0 == s[i].0,
    ensures
        entry_map(s.update(i, p)) == entry_map(s).insert(p.0, p.1),
        distinct_keys(s.update(i, p)),
    decreases s.len(),
{
    let k = p.0;
    assert forall|a: int, b: int| 0 <= a < b < s.update(i, p).len() implies (#[trigger] s.update(
        i,
        p,
    )[a]).0 != (#[trigger] s.update(i, p)[b]).0 by {
        assert(s.update(i, p)[a].0 == s[a].0);
        assert(s.update(i, p)[b].0 == s[b].0);
    }
    if i == s.len() - 1 {
        assert(s.update(i, p).drop_last() =~= s.drop_last());
        assert(s.update(i, p).last() == p);
        assert(entry_map(s.drop_last()).insert(k, s[i].1).insert(k, p.1) =~= entry_map(
            s.drop_last(),
        ).insert(k, p.1));
    } else {
        let t = s.drop_last();
        assert(t[i] == s[i]);
        lemma_entry_map_update(t, i, p);
        assert(s.update(i, p).drop_last() =~= t.update(i, p));
        assert(s.update(i, p).last() == s.last());
        assert(k != s.last().0);
        assert(entry_map(t).insert(k, p.1).insert(s.last().0, s.last().1) =~= entry_map(t).insert(
            s.last().0,
            s.last().1,
        ).insert(k, p.1));
    }
}

pub proof fn lemma_distinct_remove<K, V>(s: Seq<(K, V)>, i: int)
    requires
        distinct_keys(s),
        0 <= i < s.len(),
    ensures
        distinct_keys(s.remove(i)),
{
    let t = s.remove(i);
    assert forall|a: int, b: int| 0 <= a < b < t.len() implies (#[trigger] t[a]).0 != (
    #[trigger] t[b]).0 by {
        let a0 = if a < i {
            a
        } else {
            a + 1
        };
        let b0 = if b < i {
            b
        } else {
            b + 1
        };
        assert(t[a] == s[a0]);
        assert(t[b] == s[b0]);
    }
}

pub proof fn lemma_distinct_push<K, V>(s: Seq<(K, V)>, p: (K, V))
    requires
        distinct_keys(s),
        forall|i: int| 0 <= i < s.len() ==> (#[trigger] s[i]).0 != p.0,
    ensures
        distinct_keys(s.push(p)),
{
    let t = s.push(p);
    assert forall|a: int, b: int| 0 <= a < b < t.len() implies (#[trigger] t[a]).0 != (
    #[trigger] t[b]).0 by {
        if b < s.len() {
            assert(t[a] == s[a]);
            assert(t[b] == s[b]);
        } else {
            assert(t[a] == s[a]);
            assert(t[b] == p);
        }
    }
}

} // verus!
