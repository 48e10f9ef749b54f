//! Sums of a measure over the values of a finite map.
use vstd::prelude::*;

verus! {

/// The sum of `f` over the values of `m`.
pub open spec fn map_sum<K, V>(m: Map<K, V>, f: spec_fn(V) -> nat) -> nat
    decreases m.dom().len(),
    when m.dom().finite()
{
    if m.dom().len() == 0 {
        0
    } else {
        let k = m.dom().choose();
        f(m[k]) + map_sum(m.remove(k), f)
    }
}

/// Removing one key takes its value's measure out of the sum.
pub proof fn lemma_map_sum_remove<K, V>(m: Map<K, V>, f: spec_fn(V) -> nat, k: K)
    requires
        m.dom().finite(),
        m.dom().contains(k),
    ensures
        map_sum(m, f) == f(m[k]) + map_sum(m.remove(k), f),
    decreases m.dom().len(),
{
    assert(m.dom().len() > 0) by {
        if m.dom().len() == 0 {
            assert(m.dom() =~= Set::empty());
        }
    }
    let c = m.dom().choose();
    if c != k {
        lemma_map_sum_remove(m.remove(c), f, k);
        lemma_map_sum_remove(m.remove(k), f, c);
        assert(m.remove(c).remove(k) =~= m.remove(k).remove(c));
    }
}

/// Setting one key replaces its measure in the sum.
pub proof fn lemma_map_sum_insert<K, V>(m: Map<K, V>, f: spec_fn(V) -> nat, k: K, v: V)
    requires
        m.dom().finite(),
    ensures
        map_sum(m.insert(k, v), f) == f(v) + map_sum(m.remove(k), f),
        m.dom().contains(k) ==> map_sum(m, f) == f(m[k]) + map_sum(m.remove(k), f),
        !m.dom().contains(k) ==> map_sum(m.remove(k), f) == map_sum(m, f),
{
    lemma_map_sum_remove(m.insert(k, v), f, k);
    assert(m.insert(k, v).remove(k) =~= m.remove(k));
    if m.dom().contains(k) {
        lemma_map_sum_remove(m, f, k);
    } else {
        assert(m.remove(k) =~= m);
    }
}

/// The empty map sums to zero.
pub proof fn lemma_map_sum_empty<K, V>(f: spec_fn(V) -> nat)
    ensures
        map_sum(Map::<K, V>::empty(), f) == 0,
{
    assert(Map::<K, V>::empty().dom() =~= Set::empty());
}

/// Splitting a map by a key predicate splits its sum.
pub proof fn lemma_map_sum_split<K, V>(m: Map<K, V>, f: spec_fn(V) -> nat, p: spec_fn(K) -> bool)
    requires
        m.dom().finite(),
    ensures
        map_sum(m, f) == map_sum(m.filter_keys(p), f) + map_sum(
            m.filter_keys(|k: K| !p(k)),
            f,
        ),
    decreases m.dom().len(),
{
    let q = |k: K| !p(k);
    if m.dom().len() == 0 {
        assert(m.dom() =~= Set::empty());
        assert(m.filter_keys(p).dom() =~= Set::empty());
        assert(m.filter_keys(q).dom() =~= Set::empty());
    } else {
        let k = m.dom().choose();
        let r = m.remove(k);
        lemma_map_sum_split(r, f, p);
        lemma_map_sum_remove(m, f, k);
        assert(m.filter_keys(p).dom() =~= m.dom().filter(p));
        assert(m.filter_keys(q).dom() =~= m.dom().filter(q));
        vstd::set_lib::lemma_set_subset_finite(m.dom(), m.dom().filter(p));
        vstd::set_lib::lemma_set_subset_finite(m.dom(), m.dom().filter(q));
        if p(k) {
            assert(r.filter_keys(p) =~= m.filter_keys(p).remove(k));
            assert(r.filter_keys(q) =~= m.filter_keys(q));
            lemma_map_sum_remove(m.filter_keys(p), f, k);
        } else {
            assert(r.filter_keys(q) =~= m.filter_keys(q).remove(k));
            assert(r.filter_keys(p) =~= m.filter_keys(p));
            lemma_map_sum_remove(m.filter_keys(q), f, k);
        }
    }
}

/// Maps with the same keys and the same measure at each key have the same sum.
pub proof fn lemma_map_sum_congruent<K, V>(m1: Map<K, V>, m2: Map<K, V>, f: spec_fn(V) -> nat)
    requires
        m1.dom().finite(),
        m1.dom() == m2.dom(),
        forall|k: K| #[trigger] m1.contains_key(k) ==> f(m1[k]) == f(m2[k]),
    ensures
        map_sum(m1, f) == map_sum(m2, f),
    decreases m1.dom().len(),
{
    if m1.dom().len() > 0 {
        let k = m1.dom().choose();
        assert(m1.remove(k).dom() =~= m2.remove(k).dom());
        lemma_map_sum_congruent(m1.remove(k), m2.remove(k), f);
    }
}

} // verus!
