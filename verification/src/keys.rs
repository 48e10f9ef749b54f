//! Listing the keys of an ordered map.
use std::collections::BTreeMap;
use vstd::prelude::*;
use vstd::std_specs::iter::IteratorSpec;
use vstd::std_specs::cmp::OrdSpec;
use vstd::std_specs::btree::{axiom_spec_keys_iter, axiom_increasing_seq_meaning};

verus! {

broadcast use vstd::std_specs::btree::group_btree_axioms;

/// The block numbers of `m`, in ascending order.
pub fn block_keys<V>(m: &BTreeMap<u64, V>) -> (ks: Vec<u64>)
    ensures
        ks@.to_set() == m@.dom(),
        ks@.len() == m@.dom().len(),
        ks@.no_duplicates(),
        forall|i: int, j: int| 0 <= i < j < ks@.len() ==> ks@[i] < ks@[j],
{
    broadcast use vstd::laws_cmp::group_laws_cmp;
    let mut ks: Vec<u64> = Vec::new();
    let keys = m.keys();
    proof {
        axiom_spec_keys_iter(m);
    }
    let ghost rem = keys.remaining();
    let ghost all = rem.unref();
    proof {
        broadcast use vstd::laws_cmp::lemma_ref_obeys_cmp_spec;
        axiom_increasing_seq_meaning::<&u64>(rem);
        assert forall|i: int, j: int| 0 <= i < j < all.len() implies all[i] < all[j] by {
            assert(OrdSpec::cmp_spec(&rem[i], &rem[j]) is Less);
        }
    }
    for k in it: keys
        invariant
            all == it.seq().unref(),
            ks@ =~= it.seq().unref().take(it.index()),
    {
        ks.push(*k);
    }
    assert(ks@ =~= all);
    ks
}

/// The keys of `m`, each once.
pub fn map_keys<K: Ord + Copy, V>(m: &BTreeMap<K, V>) -> (ks: Vec<K>)
    requires
        vstd::laws_cmp::obeys_cmp::<K>(),
    ensures
        ks@.to_set() == m@.dom(),
        ks@.len() == m@.dom().len(),
        ks@.no_duplicates(),
{
    let mut ks: Vec<K> = Vec::new();
    let keys = m.keys();
    proof {
        axiom_spec_keys_iter(m);
    }
    let ghost all = keys.remaining().unref();
    for k in it: keys
        invariant
            all == it.seq().unref(),
            ks@ =~= it.seq().unref().take(it.index()),
    {
        ks.push(*k);
    }
    assert(ks@ =~= all);
    ks
}

} // verus!
