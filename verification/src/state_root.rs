//! Counts and times gathered while updating the state root: try_next of the
//! trie node iterators, the HashBuilder steps, database reads, keccak256,
//! trie shape, and the phases of the state-root calculation.
use vstd::prelude::*;

use crate::time_distribution::TimeDistributionStats;

verus! {

/// Counts and time of the trie node iterator's try_next.
#[derive(Clone, Copy, Debug, Default)]
pub struct TryNextRecord {
    /// Total execution count of try_next.
    pub total_count: u64,
    /// Total execution time of try_next.
    pub total_time: u64,
    /// Count of the branch nodes the walker advances to but can skip.
    pub skip_branch_node_count: u64,
    /// Count of boundary reading leaves.
    pub leaf_miss_count: u64,
    /// Count of work leaves.
    pub leaf_hit_count: u64,
}

/// Counts and times of one trie's root calculation.
#[derive(Clone, Copy, Debug, Default)]
pub struct CaculateRecord {
    pub total_time: u64,
    pub before_loop_time: u64,
    pub try_next_stat: TryNextRecord,
    pub add_branch_count: u64,
    pub add_branch_time: u64,
    pub cal_storage_root_and_add_leaf_time: u64,
    pub after_cal_storage_root_time: u64,
    pub add_leaf_count: u64,
    pub add_leaf_time: u64,
    pub add_root_count: u64,
    pub add_root_time: u64,
    pub after_add_root_time: u64,
}

/// Counts and cycles of each kind of database read during the state-root calculation.
#[derive(Clone, Copy, Debug, Default)]
pub struct DBReadRecord {
    pub seek_count: u64,
    pub seek_time: u64,
    pub next_count: u64,
    pub next_time: u64,
    pub seek_exact_count: u64,
    pub seek_exact_time: u64,
    pub seek_by_sub_key_count: u64,
    pub seek_by_sub_key_time: u64,
    pub next_dup_val_count: u64,
    pub next_dup_val_time: u64,
    pub at_seek_count: u64,
    pub at_seek_time: u64,
    pub at_seek_exact_count: u64,
    pub at_seek_exact_time: u64,
    pub at_current_count: u64,
    pub at_current_time: u64,
    pub st_seek_by_subkey_count: u64,
    pub st_seek_by_subkey_time: u64,
    pub st_current_count: u64,
    pub st_current_time: u64,
}

/// Number of keys updated in each trie.
#[derive(Clone, Copy, Debug, Default)]
pub struct UpdateKeys {
    pub account_trie_count: u64,
    pub storage_trie_count: u64,
}

/// Executions of keccak256 and the cycles they took.
#[derive(Clone, Copy, Debug, Default)]
pub struct Keccak256Record {
    pub count: u64,
    pub time_cycles: u64,
}

/// Number of leaves of a trie and the sum of their depths.
#[derive(Clone, Copy, Debug, Default)]
pub struct TrieNodeCount {
    pub leaf_number: u64,
    pub leaf_depth: u64,
}

/// Shape of the tries touched by an update: the trie itself and the whole state trie.
#[derive(Clone, Copy, Debug, Default)]
pub struct TreeNode {
    pub trie_node: TrieNodeCount,
    pub state_node: TrieNodeCount,
}

/// Everything measured while updating the state root over a range of blocks.
#[derive(Clone, Copy, Debug)]
pub struct StateRootRecord {
    /// First block of the range.
    pub start_block_number: u64,
    /// Last block of the range.
    pub end_block_number: u64,
    /// Total number of transactions.
    pub total_txs_count: u64,
    pub update_keys: UpdateKeys,
    pub total_time: u64,
    pub block_td_time: u64,
    pub block_with_senders_time: u64,
    pub execute_and_verify_receipt_time: u64,
    pub construct_prefix_sets_time: u64,
    pub state_write_to_db_time: u64,
    pub hashed_state_write_time: u64,
    pub hash_state_slow_time: u64,
    pub flush_time: u64,
    pub db_read: DBReadRecord,
    pub db_read_distribution: TimeDistributionStats,
    pub state_calculate_record: CaculateRecord,
    pub storage_calculate_record: CaculateRecord,
    pub keccak256_record: Keccak256Record,
    pub state_trie_info: TreeNode,
    pub storage_trie_info: TreeNode,
    pub delete_branch_count: u64,
}

impl TryNextRecord {
    /// A record with every count and time zero.
    pub fn new() -> (r: Self)
        ensures
            r == (TryNextRecord { total_count: 0, total_time: 0, skip_branch_node_count: 0, leaf_miss_count: 0, leaf_hit_count: 0 }),
    {
        TryNextRecord { total_count: 0, total_time: 0, skip_branch_node_count: 0, leaf_miss_count: 0, leaf_hit_count: 0 }
    }
}

impl CaculateRecord {
    /// A record with every count and time zero.
    pub fn new() -> (r: Self)
        ensures
            r.total_time == 0 && r.before_loop_time == 0 && r.try_next_stat.total_count == 0,
            r.try_next_stat.total_time == 0 && r.try_next_stat.skip_branch_node_count == 0,
            r.try_next_stat.leaf_miss_count == 0 && r.try_next_stat.leaf_hit_count == 0,
            r.add_branch_count == 0 && r.add_branch_time == 0,
            r.cal_storage_root_and_add_leaf_time == 0 && r.after_cal_storage_root_time == 0,
            r.add_leaf_count == 0 && r.add_leaf_time == 0 && r.add_root_count == 0,
            r.add_root_time == 0 && r.after_add_root_time == 0,
    {
        CaculateRecord {
            total_time: 0,
            before_loop_time: 0,
            try_next_stat: TryNextRecord::new(),
            add_branch_count: 0,
            add_branch_time: 0,
            cal_storage_root_and_add_leaf_time: 0,
            after_cal_storage_root_time: 0,
            add_leaf_count: 0,
            add_leaf_time: 0,
            add_root_count: 0,
            add_root_time: 0,
            after_add_root_time: 0,
        }
    }
}

impl StateRootRecord {
    /// A record of no blocks, with every count and time zero.
    pub fn new() -> (r: Self)
        ensures
            r.start_block_number == 0 && r.end_block_number == 0 && r.total_txs_count == 0,
            r.update_keys.account_trie_count == 0 && r.update_keys.storage_trie_count == 0,
            r.total_time == 0 && r.block_td_time == 0 && r.block_with_senders_time == 0,
            r.execute_and_verify_receipt_time == 0 && r.construct_prefix_sets_time == 0,
            r.state_write_to_db_time == 0 && r.hashed_state_write_time == 0,
            r.hash_state_slow_time == 0 && r.flush_time == 0 && r.delete_branch_count == 0,
            r.db_read_distribution.total_count == 0,
            r.state_calculate_record.total_time == 0 && r.storage_calculate_record.total_time == 0,
            r.keccak256_record.count == 0 && r.keccak256_record.time_cycles == 0,
    {
        StateRootRecord {
            start_block_number: 0,
            end_block_number: 0,
            total_txs_count: 0,
            update_keys: UpdateKeys { account_trie_count: 0, storage_trie_count: 0 },
            total_time: 0,
            block_td_time: 0,
            block_with_senders_time: 0,
            execute_and_verify_receipt_time: 0,
            construct_prefix_sets_time: 0,
            state_write_to_db_time: 0,
            hashed_state_write_time: 0,
            hash_state_slow_time: 0,
            flush_time: 0,
            db_read: DBReadRecord {
                seek_count: 0,
                seek_time: 0,
                next_count: 0,
                next_time: 0,
                seek_exact_count: 0,
                seek_exact_time: 0,
                seek_by_sub_key_count: 0,
                seek_by_sub_key_time: 0,
                next_dup_val_count: 0,
                next_dup_val_time: 0,
                at_seek_count: 0,
                at_seek_time: 0,
                at_seek_exact_count: 0,
                at_seek_exact_time: 0,
                at_current_count: 0,
                at_current_time: 0,
                st_seek_by_subkey_count: 0,
                st_seek_by_subkey_time: 0,
                st_current_count: 0,
                st_current_time: 0,
            },
            db_read_distribution: TimeDistributionStats::default(),
            state_calculate_record: CaculateRecord::new(),
            storage_calculate_record: CaculateRecord::new(),
            keccak256_record: Keccak256Record { count: 0, time_cycles: 0 },
            state_trie_info: TreeNode {
                trie_node: TrieNodeCount { leaf_number: 0, leaf_depth: 0 },
                state_node: TrieNodeCount { leaf_number: 0, leaf_depth: 0 },
            },
            storage_trie_info: TreeNode {
                trie_node: TrieNodeCount { leaf_number: 0, leaf_depth: 0 },
                state_node: TrieNodeCount { leaf_number: 0, leaf_depth: 0 },
            },
            delete_branch_count: 0,
        }
    }
}

/// A trie's shape and the branch nodes updated and deleted while updating
/// it.
#[derive(Clone, Copy, Debug, Default)]
pub struct MPTRecord {
    pub root_node: TreeNode,
    pub update_branch_number: u64,
    pub delete_branch_number: u64,
}

impl MPTRecord {
    /// Counts `delete_branch_nodes` more deleted and `update_branch_nodes`
    /// more updated branch nodes.
    pub fn add_updates(&mut self, delete_branch_nodes: u64, update_branch_nodes: u64)
        requires
            old(self).delete_branch_number + delete_branch_nodes <= u64::MAX,
            old(self).update_branch_number + update_branch_nodes <= u64::MAX,
        ensures
            *final(self) == (MPTRecord {
                delete_branch_number: (old(self).delete_branch_number + delete_branch_nodes) as u64,
                update_branch_number: (old(self).update_branch_number + update_branch_nodes) as u64,
                ..*old(self)
            }),
    {
        self.delete_branch_number = self.delete_branch_number + delete_branch_nodes;
        self.update_branch_number = self.update_branch_number + update_branch_nodes;
    }
}

} // verus!
