//! Block-hash lookups over the data that executing a side chain needs: the
//! side chain's own hashes first, then those of the canonical chain.
use std::collections::BTreeMap;
use vstd::prelude::*;

use crate::canonical_chain::BlockNumHash;
use crate::primitives::{BlockHash, BlockNumber};

verus! {

broadcast use {vstd::std_specs::btree::group_btree_axioms, vstd::laws_cmp::group_laws_cmp};

/// The hash `m` gives `n`, if any.
pub open spec fn lookup(m: Map<BlockNumber, BlockHash>, n: BlockNumber) -> Option<BlockHash> {
    if m.contains_key(n) { Some(m[n]) } else { None }
}

/// The hash `m` gives `n`, if any.
fn get_hash(m: &BTreeMap<BlockNumber, BlockHash>, n: BlockNumber) -> (r: Option<BlockHash>)
    ensures
        r == lookup(m@, n),
{
    match m.get(&n) {
        Some(h) => Some(*h),
        None => None,
    }
}

/// References to the data needed to execute on a side chain, with `O` the
/// execution outcome.
#[derive(Clone, Debug)]
pub struct BundleStateDataRef<'a, O> {
    /// The outcome of executing one or more transactions or blocks.
    pub execution_outcome: &'a O,
    /// Block hashes in the side chain.
    pub sidechain_block_hashes: &'a BTreeMap<BlockNumber, BlockHash>,
    /// Block hashes in the canonical chain.
    pub canonical_block_hashes: &'a BTreeMap<BlockNumber, BlockHash>,
    /// The fork point in the canonical chain.
    pub canonical_fork: BlockNumHash,
}

impl<'a, O> BundleStateDataRef<'a, O> {
    /// The execution outcome.
    pub fn execution_outcome(&self) -> (r: &O)
        ensures
            r == self.execution_outcome,
    {
        self.execution_outcome
    }

    /// The hash of block `block_number`: the side chain's, or else the
    /// canonical chain's.
    pub fn block_hash(&self, block_number: BlockNumber) -> (r: Option<BlockHash>)
        ensures
            r == match lookup(self.sidechain_block_hashes@, block_number) {
                Some(h) => Some(h),
                None => lookup(self.canonical_block_hashes@, block_number),
            },
    {
        match get_hash(self.sidechain_block_hashes, block_number) {
            Some(h) => Some(h),
            None => get_hash(self.canonical_block_hashes, block_number),
        }
    }

    /// The fork point in the canonical chain.
    pub fn canonical_fork(&self) -> (r: BlockNumHash)
        ensures
            r == self.canonical_fork,
    {
        self.canonical_fork
    }
}

/// The data needed to execute on a side chain, owned, with `O` the
/// execution outcome.
#[derive(Clone, Debug)]
pub struct ExecutionData<O> {
    /// The outcome of executing transactions or blocks.
    pub execution_outcome: O,
    /// Parent block hashes needed for the EVM `BLOCKHASH` opcode; not all
    /// may be present.
    pub parent_block_hashes: BTreeMap<BlockNumber, BlockHash>,
    /// The fork point in the canonical chain.
    pub canonical_fork: BlockNumHash,
}

impl<O> ExecutionData<O> {
    /// The execution outcome.
    pub fn execution_outcome(&self) -> (r: &O)
        ensures
            r == self.execution_outcome,
    {
        &self.execution_outcome
    }

    /// The hash of parent block `block_number`, if held.
    pub fn block_hash(&self, block_number: BlockNumber) -> (r: Option<BlockHash>)
        ensures
            r == lookup(self.parent_block_hashes@, block_number),
    {
        get_hash(&self.parent_block_hashes, block_number)
    }

    /// The fork point in the canonical chain.
    pub fn canonical_fork(&self) -> (r: BlockNumHash)
        ensures
            r == self.canonical_fork,
    {
        self.canonical_fork
    }
}

} // verus!
