//! The non-finalized blocks of the canonical chain: block numbers with
//! their hashes, ordered by number.
use std::collections::BTreeMap;
use vstd::prelude::*;

use crate::keys::block_keys;
use crate::primitives::{BlockHash, BlockNumber};

verus! {

broadcast use {vstd::std_specs::btree::group_btree_axioms, vstd::laws_cmp::group_laws_cmp};

/// A block number and its hash.
#[derive(Clone, Copy, Debug)]
pub struct BlockNumHash {
    pub number: BlockNumber,
    pub hash: BlockHash,
}

impl Default for BlockNumHash {
    fn default() -> (r: Self)
        ensures
            r.number == 0 && r.hash == (0u128, 0u128),
    {
        BlockNumHash { number: 0, hash: (0, 0) }
    }
}

/// `m` with the pairs of `blocks` inserted in order; a later pair replaces
/// the hash an earlier one gave the same number.
pub open spec fn extended(m: Map<BlockNumber, BlockHash>, blocks: Seq<(BlockNumber, BlockHash)>) -> Map<
    BlockNumber,
    BlockHash,
>
    decreases blocks.len(),
{
    if blocks.len() == 0 {
        m
    } else {
        extended(m, blocks.drop_last()).insert(blocks.last().0, blocks.last().1)
    }
}

/// Whether `n` is the lowest number that `m` gives the hash `h`.
pub open spec fn lowest_with_hash(m: Map<BlockNumber, BlockHash>, h: BlockHash, n: BlockNumber) -> bool {
    &&& m.contains_key(n)
    &&& m[n] == h
    &&& forall|k: BlockNumber| m.contains_key(k) && m[k] == h ==> n <= k
}

/// The entries of `m` in ascending order of number.
pub open spec fn ascending_entries(m: Map<BlockNumber, BlockHash>, s: Seq<(BlockNumber, BlockHash)>) -> bool {
    &&& s.len() == m.dom().len()
    &&& forall|i: int| 0 <= i < s.len() ==> m.contains_key(#[trigger] s[i].0) && m[s[i].0] == s[i].1
    &&& forall|k: BlockNumber| m.contains_key(k) ==> exists|i: int| 0 <= i < s.len() && #[trigger] s[i].0 == k
    &&& forall|i: int, j: int| 0 <= i < j < s.len() ==> s[i].0 < s[j].0
}

/// Ordered mapping of the canonical chain's non-finalized blocks by number.
#[derive(Clone, Debug)]
pub struct CanonicalChain {
    pub chain: BTreeMap<BlockNumber, BlockHash>,
}

impl View for CanonicalChain {
    type V = Map<BlockNumber, BlockHash>;

    open spec fn view(&self) -> Map<BlockNumber, BlockHash> {
        self.chain@
    }
}

impl CanonicalChain {
    /// The chain of `chain`.
    pub fn new(chain: BTreeMap<BlockNumber, BlockHash>) -> (r: Self)
        ensures
            r@ == chain@,
    {
        CanonicalChain { chain }
    }

    /// Replaces the blocks with those of `chain`.
    pub fn replace(&mut self, chain: BTreeMap<BlockNumber, BlockHash>)
        ensures
            final(self)@ == chain@,
    {
        self.chain = chain;
    }

    /// The hash of the block numbered `number`, if the chain holds it.
    pub fn canonical_hash(&self, number: &BlockNumber) -> (r: Option<BlockHash>)
        ensures
            r == if self@.contains_key(*number) { Some(self@[*number]) } else { None::<BlockHash> },
    {
        match self.chain.get(number) {
            Some(h) => Some(*h),
            None => None,
        }
    }

    /// The entries of the chain in ascending order of number.
    pub fn iter(&self) -> (r: Vec<(BlockNumber, BlockHash)>)
        ensures
            ascending_entries(self@, r@),
    {
        let ks = block_keys(&self.chain);
        let mut out: Vec<(BlockNumber, BlockHash)> = Vec::new();
        let mut i: usize = 0;
        while i < ks.len()
            invariant
                0 <= i <= ks@.len(),
                ks@.to_set() == self@.dom(),
                ks@.len() == self@.dom().len(),
                forall|a: int, b: int| 0 <= a < b < ks@.len() ==> ks@[a] < ks@[b],
                out@.len() == i,
                forall|a: int| 0 <= a < i ==> #[trigger] out@[a].0 == ks@[a] && self@.contains_key(ks@[a])
                    && out@[a].1 == self@[ks@[a]],
            decreases ks@.len() - i,
        {
            let k = ks[i];
            assert(ks@.to_set().contains(ks@[i as int]));
            let h = match self.chain.get(&k) {
                Some(h) => *h,
                None => (0, 0),
            };
            out.push((k, h));
            i = i + 1;
        }
        assert forall|k: BlockNumber| self@.contains_key(k) implies exists|a: int|
            0 <= a < out@.len() && #[trigger] out@[a].0 == k by {
            assert(ks@.to_set().contains(k));
            let a = choose|a: int| 0 <= a < ks@.len() && ks@[a] == k;
            assert(out@[a].0 == k);
        }
        out
    }

    /// The entries of the chain in ascending order of number.
    pub fn into_iter(self) -> (r: Vec<(BlockNumber, BlockHash)>)
        ensures
            ascending_entries(self@, r@),
    {
        self.iter()
    }

    /// The lowest number of a block with hash `block_hash`, if any.
    pub fn canonical_number(&self, block_hash: &BlockHash) -> (r: Option<BlockNumber>)
        ensures
            match r {
                Some(n) => lowest_with_hash(self@, *block_hash, n),
                None => forall|k: BlockNumber| self@.contains_key(k) ==> self@[k] != *block_hash,
            },
    {
        let entries = self.iter();
        let mut i: usize = 0;
        while i < entries.len()
            invariant
                0 <= i <= entries@.len(),
                ascending_entries(self@, entries@),
                forall|a: int| 0 <= a < i ==> #[trigger] entries@[a].1 != *block_hash,
            decreases entries@.len() - i,
        {
            let (n, h) = entries[i];
            if h.0 == block_hash.0 && h.1 == block_hash.1 {
                assert forall|k: BlockNumber| self@.contains_key(k) && self@[k] == *block_hash implies n <= k by {
                    let a = choose|a: int| 0 <= a < entries@.len() && #[trigger] entries@[a].0 == k;
                    if a < i {
                        assert(entries@[a].1 != *block_hash);
                    } else if a > i {
                        assert(entries@[i as int].0 < entries@[a].0);
                    }
                }
                return Some(n);
            }
            i = i + 1;
        }
        assert forall|k: BlockNumber| self@.contains_key(k) implies self@[k] != *block_hash by {
            let a = choose|a: int| 0 <= a < entries@.len() && #[trigger] entries@[a].0 == k;
            assert(entries@[a].1 != *block_hash);
        }
        None
    }

    /// Inserts the pairs of `blocks` in order.
    pub fn extend(&mut self, blocks: Vec<(BlockNumber, BlockHash)>)
        ensures
            final(self)@ == extended(old(self)@, blocks@),
    {
        let mut i: usize = 0;
        while i < blocks.len()
            invariant
                0 <= i <= blocks@.len(),
                self@ == extended(old(self)@, blocks@.take(i as int)),
            decreases blocks@.len() - i,
        {
            let (n, h) = blocks[i];
            self.chain.insert(n, h);
            assert(blocks@.take(i + 1).drop_last() =~= blocks@.take(i as int));
            i = i + 1;
        }
        assert(blocks@.take(blocks@.len() as int) =~= blocks@);
    }

    /// Keeps only the blocks for which `f` answers `true`.
    pub fn retain<F: Fn(&BlockNumber, &BlockHash) -> bool>(&mut self, f: F)
        requires
            forall|n: &BlockNumber, h: &BlockHash| f.requires((n, h)),
        ensures
            forall|k: BlockNumber| final(self)@.contains_key(k) ==> old(self)@.contains_key(k)
                && final(self)@[k] == old(self)@[k] && f.ensures((&k, &old(self)@[k]), true),
            forall|k: BlockNumber| old(self)@.contains_key(k) && !final(self)@.contains_key(k)
                ==> f.ensures((&k, &old(self)@[k]), false),
    {
        let entries = self.iter();
        let ghost before = self@;
        let mut i: usize = 0;
        while i < entries.len()
            invariant
                0 <= i <= entries@.len(),
                ascending_entries(before, entries@),
                forall|n: &BlockNumber, h: &BlockHash| f.requires((n, h)),
                forall|k: BlockNumber| #[trigger] self@.contains_key(k) ==> before.contains_key(k) && self@[k] == before[k],
                forall|a: int| i <= a < entries@.len() ==> self@.contains_key(#[trigger] entries@[a].0),
                forall|a: int| 0 <= a < i ==> (self@.contains_key(#[trigger] entries@[a].0) ==> f.ensures(
                    (&entries@[a].0, &entries@[a].1),
                    true,
                )) && (!self@.contains_key(entries@[a].0) ==> f.ensures(
                    (&entries@[a].0, &entries@[a].1),
                    false,
                )),
            decreases entries@.len() - i,
        {
            let (n, h) = entries[i];
            let keep = f(&n, &h);
            let ghost prev = self@;
            if !keep {
                self.chain.remove(&n);
                assert(self@ == prev.remove(n));
            }
            assert forall|k: BlockNumber| self@.contains_key(k) implies before.contains_key(k) && self@[k] == before[k] by {
                assert(prev.contains_key(k));
            }
            proof {
                assert forall|a: int| i < a < entries@.len() implies self@.contains_key(#[trigger] entries@[a].0) by {
                    assert(entries@[i as int].0 < entries@[a].0);
                }
            }
            i = i + 1;
        }
        assert forall|k: BlockNumber| before.contains_key(k) && !self@.contains_key(k) implies f.ensures(
            (&k, &before[k]),
            false,
        ) by {
            let a = choose|a: int| 0 <= a < entries@.len() && #[trigger] entries@[a].0 == k;
        }
        assert forall|k: BlockNumber| self@.contains_key(k) implies f.ensures((&k, &before[k]), true) by {
            let a = choose|a: int| 0 <= a < entries@.len() && #[trigger] entries@[a].0 == k;
        }
    }

    /// The chain's blocks.
    pub fn inner(&self) -> (r: &BTreeMap<BlockNumber, BlockHash>)
        ensures
            r@ == self@,
    {
        &self.chain
    }

    /// The latest block: the highest number and its hash, or number 0 with
    /// the zero hash for an empty chain.
    pub fn tip(&self) -> (r: BlockNumHash)
        ensures
            self@.dom().len() == 0 ==> r.number == 0 && r.hash == (0u128, 0u128),
            self@.dom().len() > 0 ==> self@.contains_key(r.number) && r.hash == self@[r.number]
                && forall|k: BlockNumber| self@.contains_key(k) ==> k <= r.number,
    {
        let entries = self.iter();
        if entries.len() == 0 {
            BlockNumHash::default()
        } else {
            let last = entries.len() - 1;
            let (number, hash) = entries[last];
            assert forall|k: BlockNumber| self@.contains_key(k) implies k <= number by {
                let a = choose|a: int| 0 <= a < entries@.len() && #[trigger] entries@[a].0 == k;
                if a < last {
                    assert(entries@[a].0 < entries@[last as int].0);
                }
            }
            BlockNumHash { number, hash }
        }
    }
}


/// The number that `canonical_number` finds for a hash is one that
/// `canonical_hash` maps back to that hash.
pub proof fn lemma_number_then_hash(m: Map<BlockNumber, BlockHash>, h: BlockHash, n: BlockNumber)
    requires
        lowest_with_hash(m, h, n),
    ensures
        m.contains_key(n),
        m[n] == h,
{
}

/// After `extend`, the hash of a number is the one the last pair with that
/// number gave; numbers no pair names keep their hash.
pub proof fn lemma_extend_last_wins(
    m: Map<BlockNumber, BlockHash>,
    blocks: Seq<(BlockNumber, BlockHash)>,
    n: BlockNumber,
)
    ensures
        (forall|i: int| 0 <= i < blocks.len() ==> blocks[i].0 != n) ==> (extended(m, blocks).contains_key(n)
            == m.contains_key(n) && (m.contains_key(n) ==> extended(m, blocks)[n] == m[n])),
        forall|i: int|
            0 <= i < blocks.len() && blocks[i].0 == n && (forall|j: int| i < j < blocks.len() ==> blocks[j].0 != n)
                ==> extended(m, blocks).contains_key(n) && extended(m, blocks)[n] == blocks[i].1,
    decreases blocks.len(),
{
    if blocks.len() > 0 {
        lemma_extend_last_wins(m, blocks.drop_last(), n);
        let last = blocks.len() - 1;
        assert forall|i: int|
            0 <= i < blocks.len() && blocks[i].0 == n && (forall|j: int| i < j < blocks.len() ==> blocks[j].0 != n)
                implies extended(m, blocks).contains_key(n) && extended(m, blocks)[n] == blocks[i].1 by {
            if i < last {
                assert(blocks[last].0 != n);
                assert(blocks.drop_last()[i] == blocks[i]);
                assert forall|j: int| i < j < blocks.drop_last().len() implies blocks.drop_last()[j].0 != n by {
                    assert(blocks.drop_last()[j] == blocks[j]);
                }
            }
        }
        if forall|i: int| 0 <= i < blocks.len() ==> blocks[i].0 != n {
            assert(blocks[last].0 != n);
            assert forall|i: int| 0 <= i < blocks.drop_last().len() implies blocks.drop_last()[i].0 != n by {
                assert(blocks.drop_last()[i] == blocks[i]);
            }
        }
    }
}

} // verus!
