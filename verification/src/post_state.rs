//! In-memory change sets of a post state: which accounts and storage slots
//! changed at which block, with their values before the change, and a
//! hand-tracked count of the recorded entries.
use std::collections::BTreeMap;
use vstd::prelude::*;

use crate::keys::{block_keys, map_keys};
use crate::primitives::{Account, Address, BlockNumber, U256, option_account_eq};
use crate::sums::{map_sum, lemma_map_sum_insert, lemma_map_sum_empty, lemma_map_sum_split};

verus! {

broadcast use vstd::std_specs::btree::group_btree_axioms, vstd::laws_cmp::group_laws_cmp;

/// Keys strictly above `target`.
pub open spec fn above(target: BlockNumber) -> spec_fn(BlockNumber) -> bool {
    |k: BlockNumber| k > target
}

/// Keys at or below `target`.
pub open spec fn at_or_below(target: BlockNumber) -> spec_fn(BlockNumber) -> bool {
    |k: BlockNumber| k <= target
}

/// Block-indexed change map in spec form.
pub open spec fn view_nested<A, V>(m: BTreeMap<BlockNumber, BTreeMap<A, V>>) -> Map<
    BlockNumber,
    Map<A, V>,
> {
    m@.map_values(|inner: BTreeMap<A, V>| inner@)
}

/// The spec form of a change map has the same, finite, set of blocks.
pub proof fn lemma_view_nested_dom<A, V>(m: BTreeMap<BlockNumber, BTreeMap<A, V>>)
    ensures
        view_nested(m).dom() == m@.dom(),
        view_nested(m).dom().finite(),
{
    assert(view_nested(m).dom() =~= m@.dom());
}

/// Number of entries of a map; the measure summed over blocks.
pub open spec fn entries<A, V>() -> spec_fn(Map<A, V>) -> nat {
    |inner: Map<A, V>| inner.len()
}

/// Total number of (block, key) entries of a block-indexed change map.
pub open spec fn nested_len<A, V>(m: Map<BlockNumber, Map<A, V>>) -> nat {
    map_sum(m, entries::<A, V>())
}

/// Removes from `m` the blocks on one side of `target` (those above it when
/// `strictly_above`, else those at or below it) and returns them.
pub(crate) fn split_off_blocks<W>(
    m: &mut BTreeMap<BlockNumber, W>,
    target: BlockNumber,
    strictly_above: bool,
) -> (removed: BTreeMap<BlockNumber, W>)
    ensures
        strictly_above ==> removed@ == old(m)@.filter_keys(above(target)),
        strictly_above ==> final(m)@ == old(m)@.filter_keys(at_or_below(target)),
        !strictly_above ==> removed@ == old(m)@.filter_keys(at_or_below(target)),
        !strictly_above ==> final(m)@ == old(m)@.filter_keys(above(target)),
{
    let ghost m0 = m@;
    let ghost sel = if strictly_above { above(target) } else { at_or_below(target) };
    let ks = block_keys(m);
    let mut removed: BTreeMap<BlockNumber, W> = BTreeMap::new();
    let mut i: usize = 0;
    while i < ks.len()
        invariant
            0 <= i <= ks@.len(),
            ks@.to_set() == m0.dom(),
            ks@.no_duplicates(),
            sel == if strictly_above { above(target) } else { at_or_below(target) },
            forall|k: BlockNumber|
                #![trigger m@.contains_key(k)]
                m@.contains_key(k) <==> (m0.contains_key(k) && !(sel(k) && ks@.take(
                    i as int,
                ).contains(k))),
            forall|k: BlockNumber| #![trigger m@[k]] m@.contains_key(k) ==> m@[k] == m0[k],
            forall|k: BlockNumber|
                #![trigger removed@.contains_key(k)]
                removed@.contains_key(k) <==> (m0.contains_key(k) && sel(k) && ks@.take(
                    i as int,
                ).contains(k)),
            forall|k: BlockNumber|
                #![trigger removed@[k]]
                removed@.contains_key(k) ==> removed@[k] == m0[k],
        decreases ks@.len() - i,
    {
        let k = ks[i];
        proof {
            assert(ks@.take(i + 1) =~= ks@.take(i as int).push(k));
            assert(ks@.to_set().contains(k)) by {
                assert(ks@.contains(k));
            }
            assert(!ks@.take(i as int).contains(k)) by {
                if ks@.take(i as int).contains(k) {
                    let j = choose|j: int| 0 <= j < i && #[trigger] ks@.take(i as int)[j] == k;
                    assert(ks@[j] == ks@[i as int]);
                }
            }
        }
        let take = if strictly_above { k > target } else { k <= target };
        assert(take == sel(k));
        assert(m0.contains_key(k));
        assert forall|k2: BlockNumber| ks@.take(i + 1).contains(k2) <==> (ks@.take(
            i as int,
        ).contains(k2) || k2 == k) by {
            if ks@.take(i + 1).contains(k2) && k2 != k {
                let j = choose|j: int| 0 <= j < i + 1 && #[trigger] ks@.take(i + 1)[j] == k2;
                assert(ks@.take(i as int)[j] == k2);
            }
            if k2 == k {
                assert(ks@.take(i + 1)[i as int] == k);
            }
        }
        if take {
            let v = m.remove(&k);
            match v {
                Some(v) => {
                    removed.insert(k, v);
                },
                None => {},
            }
        }
        i = i + 1;
    }
    proof {
        assert(ks@.take(ks@.len() as int) =~= ks@);
        if strictly_above {
            assert(removed@ =~= m0.filter_keys(above(target)));
            assert(m@ =~= m0.filter_keys(at_or_below(target)));
        } else {
            assert(removed@ =~= m0.filter_keys(at_or_below(target)));
            assert(m@ =~= m0.filter_keys(above(target)));
        }
    }
    removed
}

/// The blocks among the first `i` of `ks`.
pub open spec fn in_prefix<K>(ks: Seq<K>, i: int) -> spec_fn(K) -> bool {
    |b: K| ks.take(i).contains(b)
}

/// A restriction of a finite map sums to no more than the map.
pub proof fn lemma_map_sum_filter_le<K, V>(
    m: Map<K, V>,
    f: spec_fn(V) -> nat,
    p: spec_fn(K) -> bool,
)
    requires
        m.dom().finite(),
    ensures
        map_sum(m.filter_keys(p), f) <= map_sum(m, f),
        m.filter_keys(p).dom().finite(),
{
    lemma_map_sum_split(m, f, p);
    assert(m.filter_keys(p).dom() =~= m.dom().filter(p));
    vstd::set_lib::lemma_set_subset_finite(m.dom(), m.dom().filter(p));
}

/// Growing the prefix of distinct keys by one key adds that key's measure.
pub proof fn lemma_prefix_step<K, V>(
    m: Map<K, V>,
    f: spec_fn(V) -> nat,
    ks: Seq<K>,
    i: int,
)
    requires
        m.dom().finite(),
        0 <= i < ks.len(),
        ks.no_duplicates(),
        m.contains_key(ks[i]),
    ensures
        map_sum(m.filter_keys(in_prefix(ks, i + 1)), f) == f(m[ks[i]]) + map_sum(
            m.filter_keys(in_prefix(ks, i)),
            f,
        ),
{
    let k = ks[i];
    let before = m.filter_keys(in_prefix(ks, i));
    let after = m.filter_keys(in_prefix(ks, i + 1));
    assert forall|k2: K| ks.take(i + 1).contains(k2) <==> (ks.take(i).contains(k2)
        || k2 == k) by {
        if ks.take(i + 1).contains(k2) && k2 != k {
            let j = choose|j: int| 0 <= j < i + 1 && #[trigger] ks.take(i + 1)[j] == k2;
            assert(ks.take(i)[j] == k2);
        }
        if k2 == k {
            assert(ks.take(i + 1)[i] == k);
        }
    }
    assert(!ks.take(i).contains(k)) by {
        if ks.take(i).contains(k) {
            let j = choose|j: int| 0 <= j < i && #[trigger] ks.take(i)[j] == k;
            assert(ks[j] == ks[i]);
        }
    }
    assert(after =~= before.insert(k, m[k]));
    lemma_map_sum_filter_le(m, f, in_prefix(ks, i));
    lemma_map_sum_insert(before, f, k, m[k]);
    assert(before.remove(k) =~= before);
}

/// The number of (block, key) entries of `m`.
fn count_entries<V>(m: &BTreeMap<BlockNumber, BTreeMap<Address, V>>, budget: usize) -> (n: usize)
    requires
        nested_len(view_nested(*m)) <= budget,
    ensures
        n == nested_len(view_nested(*m)),
{
    let ghost vm = view_nested(*m);
    proof {
        lemma_view_nested_dom(*m);
    }
    let ks = block_keys(m);
    proof {
        assert(vm.filter_keys(in_prefix(ks@, 0)) =~= Map::empty());
        lemma_map_sum_empty::<BlockNumber, Map<Address, V>>(entries::<Address, V>());
    }
    let mut acc: usize = 0;
    let mut i: usize = 0;
    while i < ks.len()
        invariant
            0 <= i <= ks@.len(),
            ks@.to_set() == m@.dom(),
            ks@.no_duplicates(),
            vm == view_nested(*m),
            vm.dom() == m@.dom(),
            vm.dom().finite(),
            nested_len(vm) <= budget,
            acc == map_sum(vm.filter_keys(in_prefix(ks@, i as int)), entries::<Address, V>()),
        decreases ks@.len() - i,
    {
        let k = ks[i];
        assert(ks@.contains(k));
        let inner = m.get(&k);
        let len = match inner {
            Some(inner) => inner.len(),
            None => 0,
        };
        proof {
            lemma_prefix_step(vm, entries::<Address, V>(), ks@, i as int);
            lemma_map_sum_filter_le(vm, entries::<Address, V>(), in_prefix(ks@, i + 1));
        }
        acc = acc + len;
        i = i + 1;
    }
    assert(vm.filter_keys(in_prefix(ks@, ks@.len() as int)) =~= vm) by {
        assert(ks@.take(ks@.len() as int) =~= ks@);
    }
    acc
}

/// Inserts into `target` each entry of `source` whose key `target` lacks;
/// returns how many were inserted.
pub(crate) fn insert_absent<V: Copy>(target: &mut BTreeMap<Address, V>, source: &BTreeMap<Address, V>) -> (added:
    usize)
    ensures
        final(target)@ == source@.union_prefer_right(old(target)@),
        added == source@.dom().difference(old(target)@.dom()).len(),
{
    let ghost t0 = target@;
    let ks = map_keys(source);
    proof {
        assert(ks@.take(0).to_set() =~= Set::empty());
        assert(Set::<Address>::empty().difference(t0.dom()) =~= Set::empty());
        assert(source@.restrict(Set::empty()).union_prefer_right(t0) =~= t0);
    }
    let mut added: usize = 0;
    let mut i: usize = 0;
    while i < ks.len()
        invariant
            0 <= i <= ks@.len(),
            ks@.to_set() == source@.dom(),
            ks@.len() == source@.dom().len(),
            ks@.no_duplicates(),
            source@.dom().finite(),
            t0.dom().finite(),
            target@ == source@.restrict(ks@.take(i as int).to_set()).union_prefer_right(t0),
            added == ks@.take(i as int).to_set().difference(t0.dom()).len(),
            ks@.take(i as int).to_set().difference(t0.dom()).len() <= i,
        decreases ks@.len() - i,
    {
        let k = ks[i];
        let ghost before = ks@.take(i as int).to_set();
        let ghost after = ks@.take(i + 1).to_set();
        proof {
            assert(ks@.take(i + 1) =~= ks@.take(i as int).push(k));
            ks@.take(i as int).lemma_push_to_set_commute(k);
            assert(after =~= before.insert(k));
            assert(!before.contains(k)) by {
                if before.contains(k) {
                    assert(ks@.take(i as int).contains(k));
                    let j = choose|j: int| 0 <= j < i && #[trigger] ks@.take(i as int)[j] == k;
                    assert(ks@[j] == ks@[i as int]);
                }
            }
            assert(ks@.contains(k));
            assert(source@.dom().contains(k));
            ks@.take(i as int).lemma_cardinality_of_set();
            vstd::set_lib::lemma_len_subset(before.difference(t0.dom()), before);
        }
        let present = target.contains_key(&k);
        if !present {
            let v = *source.get(&k).unwrap();
            target.insert(k, v);
            proof {
                assert(!t0.dom().contains(k));
                assert(after.difference(t0.dom()) =~= before.difference(t0.dom()).insert(k));
            }
            added = added + 1;
        } else {
            proof {
                assert(t0.dom().contains(k));
                assert(after.difference(t0.dom()) =~= before.difference(t0.dom()));
            }
        }
        assert(target@ =~= source@.restrict(after).union_prefer_right(t0));
        i = i + 1;
    }
    proof {
        assert(ks@.take(ks@.len() as int) =~= ks@);
        assert(source@.restrict(ks@.to_set()) =~= source@);
    }
    added
}

/// A mapping of `block -> address -> account` that holds which accounts were
/// changed, and what their state was prior to that change. A prior state of
/// `None` means the account is new.
#[derive(Clone, Debug)]
pub struct AccountChanges {
    /// The inner mapping of block changes.
    pub inner: BTreeMap<BlockNumber, BTreeMap<Address, Option<Account>>>,
    /// Hand-tracked change size.
    pub size: usize,
}

/// The account-change map after `insert(block, address, old, new)`.
pub open spec fn account_insert_spec(
    m: Map<BlockNumber, Map<Address, Option<Account>>>,
    block: BlockNumber,
    address: Address,
    old_account: Option<Account>,
    new_account: Option<Account>,
) -> Map<BlockNumber, Map<Address, Option<Account>>> {
    let bm = block_map(m, block);
    if !bm.contains_key(address) {
        m.insert(block, bm.insert(address, old_account))
    } else if bm[address] == new_account {
        m.insert(block, bm.remove(address))
    } else {
        m.insert(block, bm)
    }
}

/// The changes recorded at `block`, empty where there are none.
pub open spec fn block_map<A, V>(m: Map<BlockNumber, Map<A, V>>, block: BlockNumber) -> Map<A, V> {
    if m.contains_key(block) {
        m[block]
    } else {
        Map::empty()
    }
}

/// Whether `a` already has a recorded change at `block`.
pub open spec fn has_change<A, V>(m: Map<BlockNumber, Map<A, V>>, block: BlockNumber, a: A) -> bool {
    m.contains_key(block) && m[block].contains_key(a)
}

/// How many keys of `changes` have no entry in `existing` yet.
pub open spec fn fresh_count<A, V>(existing: Map<A, V>, changes: Map<A, V>) -> nat {
    changes.dom().difference(existing.dom()).len()
}

/// The number of entries of `existing` extended by the fresh keys of `changes`.
proof fn lemma_union_len<V>(existing: Map<Address, V>, changes: Map<Address, V>)
    requires
        existing.dom().finite(),
        changes.dom().finite(),
    ensures
        changes.union_prefer_right(existing).len() == existing.len() + fresh_count(
            existing,
            changes,
        ),
{
    let d = changes.dom().difference(existing.dom());
    assert(changes.union_prefer_right(existing).dom() =~= existing.dom() + d);
    vstd::set_lib::lemma_set_disjoint_lens(existing.dom(), d);
}

impl View for AccountChanges {
    type V = Map<BlockNumber, Map<Address, Option<Account>>>;

    open spec fn view(&self) -> Self::V {
        view_nested(self.inner)
    }
}

impl AccountChanges {
    /// The hand-tracked size equals the number of recorded changes.
    pub open spec fn wf(&self) -> bool {
        self.size == nested_len(self@)
    }

    /// An empty change set.
    pub fn new() -> (r: AccountChanges)
        ensures
            r@ == Map::<BlockNumber, Map<Address, Option<Account>>>::empty(),
            r.size == 0,
            r.wf(),
    {
        let r = AccountChanges { inner: BTreeMap::new(), size: 0 };
        assert(r@ =~= Map::empty());
        proof {
            lemma_map_sum_empty::<BlockNumber, Map<Address, Option<Account>>>(
                entries::<Address, Option<Account>>(),
            );
        }
        r
    }

    /// Insert account change at specified block number. The value is **not**
    /// updated if it already exists; if the already recorded prior state
    /// equals `new_account`, the change collapses and the entry is removed.
    pub fn insert(
        &mut self,
        block: BlockNumber,
        address: Address,
        old_account: Option<Account>,
        new_account: Option<Account>,
    )
        requires
            !has_change(old(self)@, block, address) ==> old(self).size < usize::MAX,
            has_change(old(self)@, block, address) && old(self)@[block][address] == new_account
                ==> old(self).size > 0,
        ensures
            final(self)@ == account_insert_spec(old(self)@, block, address, old_account, new_account),
            final(self).size == if !has_change(old(self)@, block, address) {
                old(self).size + 1
            } else if old(self)@[block][address] == new_account {
                old(self).size - 1
            } else {
                old(self).size as int
            },
            old(self).wf() ==> final(self).wf(),
    {
        let ghost m0 = self@;
        let mut block_entry = match self.inner.remove(&block) {
            Some(entry) => entry,
            None => BTreeMap::new(),
        };
        let ghost bm0 = block_entry@;
        assert(bm0 == block_map(m0, block));
        let found = match block_entry.get(&address) {
            None => None,
            Some(prior) => Some(option_account_eq(prior, &new_account)),
        };
        match found {
            None => {
                self.size = self.size + 1;
                block_entry.insert(address, old_account);
            },
            Some(same) => {
                if same {
                    block_entry.remove(&address);
                    self.size = self.size - 1;
                }
            },
        }
        let ghost bm1 = block_entry@;
        self.inner.insert(block, block_entry);
        assert(self@ =~= account_insert_spec(m0, block, address, old_account, new_account));
        proof {
            lemma_view_nested_dom(old(self).inner);
            lemma_map_sum_insert(m0, entries::<Address, Option<Account>>(), block, bm1);
            assert(m0.insert(block, bm1) == self@);
        }
    }

    /// Insert account changes at specified block number. The values are
    /// **not** updated if they already exist.
    pub fn insert_for_block(
        &mut self,
        block: BlockNumber,
        changes: BTreeMap<Address, Option<Account>>,
    )
        requires
            old(self).size + fresh_count(block_map(old(self)@, block), changes@) <= usize::MAX,
        ensures
            final(self)@ == old(self)@.insert(
                block,
                changes@.union_prefer_right(block_map(old(self)@, block)),
            ),
            final(self).size == old(self).size + fresh_count(block_map(old(self)@, block), changes@),
            old(self).wf() ==> final(self).wf(),
    {
        let ghost m0 = self@;
        let mut block_entry = match self.inner.remove(&block) {
            Some(entry) => entry,
            None => BTreeMap::new(),
        };
        let ghost bm0 = block_entry@;
        assert(bm0 == block_map(m0, block));
        let added = insert_absent(&mut block_entry, &changes);
        self.size = self.size + added;
        let ghost bm1 = block_entry@;
        self.inner.insert(block, block_entry);
        assert(self@ =~= m0.insert(block, bm1));
        proof {
            lemma_view_nested_dom(old(self).inner);
            lemma_map_sum_insert(m0, entries::<Address, Option<Account>>(), block, bm1);
            lemma_union_len(bm0, changes@);
        }
    }

    /// Drain and return any entries above the target block number.
    pub fn drain_above(&mut self, target_block: BlockNumber) -> (evicted: BTreeMap<
        BlockNumber,
        BTreeMap<Address, Option<Account>>,
    >)
        requires
            nested_len(old(self)@.filter_keys(above(target_block))) <= old(self).size,
        ensures
            view_nested(evicted) == old(self)@.filter_keys(above(target_block)),
            final(self)@ == old(self)@.filter_keys(at_or_below(target_block)),
            final(self).size == old(self).size - nested_len(
                old(self)@.filter_keys(above(target_block)),
            ),
            old(self).wf() ==> final(self).wf(),
    {
        let ghost m0 = self@;
        let evicted = split_off_blocks(&mut self.inner, target_block, true);
        assert(view_nested(evicted) =~= m0.filter_keys(above(target_block)));
        assert(self@ =~= m0.filter_keys(at_or_below(target_block)));
        let n = count_entries(&evicted, self.size);
        self.size = self.size - n;
        proof {
            lemma_view_nested_dom(old(self).inner);
            lemma_map_sum_split(m0, entries::<Address, Option<Account>>(), above(target_block));
            assert(m0.filter_keys(|k: BlockNumber| !above(target_block)(k)) =~= m0.filter_keys(
                at_or_below(target_block),
            ));
        }
        evicted
    }

    /// Retain entries only above specified block number.
    pub fn retain_above(&mut self, target_block: BlockNumber)
        requires
            nested_len(old(self)@.filter_keys(at_or_below(target_block))) <= old(self).size,
        ensures
            final(self)@ == old(self)@.filter_keys(above(target_block)),
            final(self).size == old(self).size - nested_len(
                old(self)@.filter_keys(at_or_below(target_block)),
            ),
            old(self).wf() ==> final(self).wf(),
    {
        let ghost m0 = self@;
        let dropped = split_off_blocks(&mut self.inner, target_block, false);
        assert(view_nested(dropped) =~= m0.filter_keys(at_or_below(target_block)));
        assert(self@ =~= m0.filter_keys(above(target_block)));
        let n = count_entries(&dropped, self.size);
        self.size = self.size - n;
        proof {
            lemma_view_nested_dom(old(self).inner);
            lemma_map_sum_split(m0, entries::<Address, Option<Account>>(), above(target_block));
            assert(m0.filter_keys(|k: BlockNumber| !above(target_block)(k)) =~= m0.filter_keys(
                at_or_below(target_block),
            ));
        }
    }
}


/// Splitting change sets at a block loses and duplicates nothing: the
/// blocks above `target` (what `drain_above` hands out and `retain_above`
/// keeps) and those at or below it (what `drain_above` keeps and
/// `retain_above` drops) are disjoint, together make the whole map, and
/// their changes add up to all of them.
pub proof fn lemma_split_partitions<A, V>(m: Map<BlockNumber, Map<A, V>>, target: BlockNumber)
    requires
        m.dom().finite(),
    ensures
        m.filter_keys(above(target)).dom().disjoint(m.filter_keys(at_or_below(target)).dom()),
        m.filter_keys(above(target)).union_prefer_right(m.filter_keys(at_or_below(target))) == m,
        nested_len(m) == nested_len(m.filter_keys(above(target))) + nested_len(
            m.filter_keys(at_or_below(target)),
        ),
{
    lemma_map_sum_split(m, entries::<A, V>(), above(target));
    assert(m.filter_keys(|k: BlockNumber| !above(target)(k)) =~= m.filter_keys(at_or_below(target)));
    assert(m.filter_keys(above(target)).union_prefer_right(m.filter_keys(at_or_below(target))) =~= m);
}

} // verus!
