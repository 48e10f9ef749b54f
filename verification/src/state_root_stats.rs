//! Breakdowns of a state-root measurement: the figures shown for each part
//! of the report, derived from a `StateRootRecord`.
use vstd::prelude::*;

use crate::state_root::{CaculateRecord, DBReadRecord, StateRootRecord};

verus! {

/// Blocks and transactions covered by a measurement.
#[derive(Clone, Copy, Debug, Default)]
pub struct ChainDataStat {
    pub total_block_count: u64,
    pub total_txs_count: u64,
}

impl ChainDataStat {
    /// The blocks from the first to the last block of `record`, and its
    /// transactions.
    pub fn from(record: &StateRootRecord) -> (r: Self)
        requires
            record.start_block_number <= record.end_block_number,
            record.end_block_number - record.start_block_number + 1 <= u64::MAX,
        ensures
            r.total_block_count == record.end_block_number - record.start_block_number + 1,
            r.total_txs_count == record.total_txs_count,
    {
        let total_block_count = record.end_block_number - record.start_block_number + 1;
        ChainDataStat { total_block_count, total_txs_count: record.total_txs_count }
    }
}

/// The measured parts of a storage-trie calculation.
pub open spec fn storage_parts(rc: CaculateRecord) -> int {
    rc.before_loop_time + rc.try_next_stat.total_time + rc.add_branch_time + rc.add_leaf_time
        + rc.add_root_time + rc.after_add_root_time
}

/// The measured parts of an account-trie calculation.
pub open spec fn state_parts(sc: CaculateRecord) -> int {
    sc.before_loop_time + sc.try_next_stat.total_time + sc.add_branch_time
        + sc.cal_storage_root_and_add_leaf_time + sc.add_root_time + sc.after_add_root_time
}

/// Breakdown of StorageRoot.calculate.
#[derive(Clone, Copy, Debug, Default)]
pub struct StorageCalculateStat {
    pub total_time: u64,
    pub misc_time: u64,
    pub before_loop_time: u64,
    pub try_next_time: u64,
    pub add_branch_time: u64,
    pub add_leaf_time: u64,
    pub root_time: u64,
    pub after_root_time: u64,
}

/// The storage-trie figures of a calculation record `rc`.
pub open spec fn storage_stat(rc: CaculateRecord) -> StorageCalculateStat {
    StorageCalculateStat {
        total_time: rc.total_time,
        misc_time: (rc.total_time - storage_parts(rc)) as u64,
        before_loop_time: rc.before_loop_time,
        try_next_time: rc.try_next_stat.total_time,
        add_branch_time: rc.add_branch_time,
        add_leaf_time: rc.add_leaf_time,
        root_time: rc.add_root_time,
        after_root_time: rc.after_add_root_time,
    }
}

impl StorageCalculateStat {
    /// The storage-trie times of `record`; the time not spent in any
    /// measured part is `misc_time`.
    pub fn from(record: &StateRootRecord) -> (r: Self)
        requires
            storage_parts(record.storage_calculate_record) <= record.storage_calculate_record.total_time,
        ensures
            r == storage_stat(record.storage_calculate_record),
    {
        let rc = &record.storage_calculate_record;
        let misc_time = rc.total_time - rc.before_loop_time - rc.try_next_stat.total_time
            - rc.add_branch_time - rc.add_leaf_time - rc.add_root_time - rc.after_add_root_time;
        StorageCalculateStat {
            total_time: rc.total_time,
            misc_time,
            before_loop_time: rc.before_loop_time,
            try_next_time: rc.try_next_stat.total_time,
            add_branch_time: rc.add_branch_time,
            add_leaf_time: rc.add_leaf_time,
            root_time: rc.add_root_time,
            after_root_time: rc.after_add_root_time,
        }
    }
}

/// Breakdown of StateRoot.calculate, with the storage-trie calculation
/// nested in its add_leaf step.
#[derive(Clone, Copy, Debug, Default)]
pub struct StateCalculateStat {
    pub total_time: u64,
    pub misc_time: u64,
    pub before_loop_time: u64,
    pub try_next_time: u64,
    pub add_branch_time: u64,
    pub cal_storage_root_and_add_leaf_time: u64,
    pub add_leaf_misc_time: u64,
    pub storage_cal_stat: StorageCalculateStat,
    pub add_leaf_time: u64,
    pub root_time: u64,
    pub after_root_time: u64,
}

/// What `StateCalculateStat::from` needs of a record.
pub open spec fn state_calculate_ok(record: StateRootRecord) -> bool {
    let sc = record.state_calculate_record;
    let rc = record.storage_calculate_record;
    &&& storage_parts(rc) <= rc.total_time
    &&& rc.total_time + sc.add_leaf_time <= sc.cal_storage_root_and_add_leaf_time
    &&& state_parts(sc) <= sc.total_time
}

/// The account-trie figures of `record`.
pub open spec fn state_stat(record: StateRootRecord) -> StateCalculateStat {
    let sc = record.state_calculate_record;
    let rc = record.storage_calculate_record;
    StateCalculateStat {
        total_time: sc.total_time,
        misc_time: (sc.total_time - state_parts(sc)) as u64,
        before_loop_time: sc.before_loop_time,
        try_next_time: sc.try_next_stat.total_time,
        add_branch_time: sc.add_branch_time,
        cal_storage_root_and_add_leaf_time: sc.cal_storage_root_and_add_leaf_time,
        add_leaf_misc_time: (sc.cal_storage_root_and_add_leaf_time - rc.total_time
            - sc.add_leaf_time) as u64,
        storage_cal_stat: storage_stat(rc),
        add_leaf_time: sc.add_leaf_time,
        root_time: sc.add_root_time,
        after_root_time: sc.after_add_root_time,
    }
}

impl StateCalculateStat {
    /// The account-trie times of `record`: the time of the add_leaf step not
    /// spent in the storage-trie calculation or HashBuilder.add_leaf is
    /// `add_leaf_misc_time`; the time not spent in any measured part is
    /// `misc_time`.
    pub fn from(record: &StateRootRecord) -> (r: Self)
        requires
            state_calculate_ok(*record),
        ensures
            r == state_stat(*record),
    {
        let storage_cal_stat = StorageCalculateStat::from(record);
        let sc = &record.state_calculate_record;
        let add_leaf_misc_time = sc.cal_storage_root_and_add_leaf_time - storage_cal_stat.total_time
            - sc.add_leaf_time;
        let misc_time = sc.total_time - sc.before_loop_time - sc.try_next_stat.total_time
            - sc.add_branch_time - sc.cal_storage_root_and_add_leaf_time - sc.add_root_time
            - sc.after_add_root_time;
        StateCalculateStat {
            total_time: sc.total_time,
            misc_time,
            before_loop_time: sc.before_loop_time,
            try_next_time: sc.try_next_stat.total_time,
            add_branch_time: sc.add_branch_time,
            cal_storage_root_and_add_leaf_time: sc.cal_storage_root_and_add_leaf_time,
            add_leaf_misc_time,
            storage_cal_stat,
            add_leaf_time: sc.add_leaf_time,
            root_time: sc.add_root_time,
            after_root_time: sc.after_add_root_time,
        }
    }
}

/// The sum of the measured phases of a state-root update.
pub open spec fn phase_sum(record: StateRootRecord) -> int {
    record.hash_state_slow_time + record.construct_prefix_sets_time
        + record.state_calculate_record.total_time + record.state_write_to_db_time
        + record.hashed_state_write_time + record.flush_time
}

/// The total time of a state-root update: the recorded total, or, where none
/// was recorded, the sum of the measured phases.
pub open spec fn spec_total_time(record: StateRootRecord) -> int {
    if record.total_time != 0 {
        record.total_time as int
    } else {
        phase_sum(record)
    }
}

/// The time of a state-root update spent in its measured parts.
pub open spec fn breakdown_parts(record: StateRootRecord) -> int {
    record.block_td_time + record.block_with_senders_time + record.execute_and_verify_receipt_time
        + record.hash_state_slow_time + record.construct_prefix_sets_time
        + record.state_calculate_record.total_time + record.state_write_to_db_time
        + record.hashed_state_write_time + record.flush_time
}

/// Breakdown of the whole update by function.
#[derive(Clone, Copy, Debug, Default)]
pub struct BreakdownStat {
    pub total_time: u64,
    pub misc_time: u64,
    pub block_td_time: u64,
    pub block_with_senders_time: u64,
    pub execute_and_verify_receipt_time: u64,
    pub hash_state_slow_time: u64,
    pub construct_prefix_sets_time: u64,
    pub state_trie_cal_stats: StateCalculateStat,
    pub state_write_to_db_time: u64,
    pub hashed_state_write_time: u64,
    pub flush_time: u64,
}

impl BreakdownStat {
    /// The recorded total time, or, where none was recorded, the sum of the
    /// measured phases.
    pub fn total_time(record: &StateRootRecord) -> (r: u64)
        requires
            record.total_time == 0 ==> phase_sum(*record) <= u64::MAX,
        ensures
            r == spec_total_time(*record),
    {
        if record.total_time != 0 {
            record.total_time
        } else {
            record.hash_state_slow_time + record.construct_prefix_sets_time
                + record.state_calculate_record.total_time + record.state_write_to_db_time
                + record.hashed_state_write_time + record.flush_time
        }
    }

    /// The times of `record` by function; the total time not spent in any
    /// measured part is `misc_time`.
    pub fn from(record: &StateRootRecord) -> (r: Self)
        requires
            state_calculate_ok(*record),
            record.total_time == 0 ==> phase_sum(*record) <= u64::MAX,
            breakdown_parts(*record) <= spec_total_time(*record),
        ensures
            r.total_time == spec_total_time(*record),
            r.misc_time == spec_total_time(*record) - breakdown_parts(*record),
            r.block_td_time == record.block_td_time,
            r.block_with_senders_time == record.block_with_senders_time,
            r.execute_and_verify_receipt_time == record.execute_and_verify_receipt_time,
            r.hash_state_slow_time == record.hash_state_slow_time,
            r.construct_prefix_sets_time == record.construct_prefix_sets_time,
            r.state_trie_cal_stats == state_stat(*record),
            r.state_write_to_db_time == record.state_write_to_db_time,
            r.hashed_state_write_time == record.hashed_state_write_time,
            r.flush_time == record.flush_time,
    {
        let state_trie_cal_stats = StateCalculateStat::from(record);
        let total_time = Self::total_time(record);
        let misc_time = total_time - record.block_td_time - record.block_with_senders_time
            - record.execute_and_verify_receipt_time - record.hash_state_slow_time
            - record.construct_prefix_sets_time - state_trie_cal_stats.total_time
            - record.state_write_to_db_time - record.hashed_state_write_time - record.flush_time;
        BreakdownStat {
            total_time,
            misc_time,
            block_td_time: record.block_td_time,
            block_with_senders_time: record.block_with_senders_time,
            execute_and_verify_receipt_time: record.execute_and_verify_receipt_time,
            hash_state_slow_time: record.hash_state_slow_time,
            construct_prefix_sets_time: record.construct_prefix_sets_time,
            state_trie_cal_stats,
            state_write_to_db_time: record.state_write_to_db_time,
            hashed_state_write_time: record.hashed_state_write_time,
            flush_time: record.flush_time,
        }
    }
}

/// A figure split between the account trie and the storage tries.
#[derive(Clone, Copy, Debug, Default)]
pub struct OneDimensionalData {
    pub total: u64,
    pub account_trie: u64,
    pub storage_trie: u64,
}

/// The split figure of `account` and `storage`, with their sum as total.
pub open spec fn split(account: u64, storage: u64) -> OneDimensionalData {
    OneDimensionalData {
        total: (account + storage) as u64,
        account_trie: account,
        storage_trie: storage,
    }
}

impl OneDimensionalData {
    /// The figures of the account trie and the storage tries, and their sum.
    pub fn new(account: u64, storage: u64) -> (r: Self)
        requires
            account + storage <= u64::MAX,
        ensures
            r == split(account, storage),
    {
        OneDimensionalData { total: account + storage, account_trie: account, storage_trie: storage }
    }
}

/// A count and a time, each split between the account trie and the storage
/// tries.
#[derive(Clone, Copy, Debug, Default)]
pub struct TwoDimensionalData {
    pub total_count: u64,
    pub account_trie_count: u64,
    pub storage_trie_count: u64,
    pub total_time: u64,
    pub account_trie_time: u64,
    pub storage_trie_time: u64,
}

/// The split count and time of the account trie and the storage tries.
pub open spec fn split2(
    account_count: u64,
    storage_count: u64,
    account_time: u64,
    storage_time: u64,
) -> TwoDimensionalData {
    TwoDimensionalData {
        total_count: (account_count + storage_count) as u64,
        account_trie_count: account_count,
        storage_trie_count: storage_count,
        total_time: (account_time + storage_time) as u64,
        account_trie_time: account_time,
        storage_trie_time: storage_time,
    }
}

impl TwoDimensionalData {
    /// The counts and times of both kinds of trie, and their sums.
    pub fn new(account_count: u64, storage_count: u64, account_time: u64, storage_time: u64) -> (r: Self)
        requires
            account_count + storage_count <= u64::MAX,
            account_time + storage_time <= u64::MAX,
        ensures
            r == split2(account_count, storage_count, account_time, storage_time),
    {
        TwoDimensionalData {
            total_count: account_count + storage_count,
            account_trie_count: account_count,
            storage_trie_count: storage_count,
            total_time: account_time + storage_time,
            account_trie_time: account_time,
            storage_trie_time: storage_time,
        }
    }
}

/// Count and time of try_next over both kinds of trie.
#[derive(Clone, Copy, Debug, Default)]
pub struct TryNextStat {
    pub data: TwoDimensionalData,
}

/// The try_next figures of `record`.
pub open spec fn try_next_stat(record: StateRootRecord) -> TryNextStat {
    let a = record.state_calculate_record.try_next_stat;
    let s = record.storage_calculate_record.try_next_stat;
    TryNextStat { data: split2(a.total_count, s.total_count, a.total_time, s.total_time) }
}

/// What `TryNextStat::from` needs of a record: the sums fit.
pub open spec fn try_next_ok(record: StateRootRecord) -> bool {
    let a = record.state_calculate_record.try_next_stat;
    let s = record.storage_calculate_record.try_next_stat;
    &&& a.total_count + s.total_count <= u64::MAX
    &&& a.total_time + s.total_time <= u64::MAX
}

impl TryNextStat {
    /// Sums the try_next counts and times of the two kinds of trie.
    pub fn from(record: &StateRootRecord) -> (r: Self)
        requires
            try_next_ok(*record),
        ensures
            r == try_next_stat(*record),
    {
        let a = &record.state_calculate_record.try_next_stat;
        let s = &record.storage_calculate_record.try_next_stat;
        TryNextStat {
            data: TwoDimensionalData::new(a.total_count, s.total_count, a.total_time, s.total_time),
        }
    }
}

/// Time of the account-trie calculation by HashBuilder step, each split
/// between the two kinds of trie.
#[derive(Clone, Copy, Debug, Default)]
pub struct BreakdownCategoryStat {
    pub total_time: u64,
    pub other_time: u64,
    pub try_next_time: OneDimensionalData,
    pub add_branch_time: OneDimensionalData,
    pub add_leaf_time: OneDimensionalData,
    pub root_time: OneDimensionalData,
}

/// The time of the account-trie calculation spent in the categories.
pub open spec fn category_parts(record: StateRootRecord) -> int {
    let a = record.state_calculate_record;
    let s = record.storage_calculate_record;
    a.try_next_stat.total_time + s.try_next_stat.total_time + a.add_branch_time
        + s.add_branch_time + a.add_leaf_time + s.add_leaf_time + a.add_root_time
        + s.add_root_time
}

/// What `BreakdownCategoryStat::from` needs of a record: the sums fit and
/// the categories do not exceed the total.
pub open spec fn category_ok(record: StateRootRecord) -> bool {
    let a = record.state_calculate_record;
    let s = record.storage_calculate_record;
    &&& try_next_ok(record)
    &&& a.add_branch_time + s.add_branch_time <= u64::MAX
    &&& a.add_leaf_time + s.add_leaf_time <= u64::MAX
    &&& a.add_root_time + s.add_root_time <= u64::MAX
    &&& category_parts(record) <= a.total_time
}

/// The category figures of `record`.
pub open spec fn category_stat(record: StateRootRecord) -> BreakdownCategoryStat {
    let a = record.state_calculate_record;
    let s = record.storage_calculate_record;
    BreakdownCategoryStat {
        total_time: a.total_time,
        other_time: (a.total_time - category_parts(record)) as u64,
        try_next_time: split(a.try_next_stat.total_time, s.try_next_stat.total_time),
        add_branch_time: split(a.add_branch_time, s.add_branch_time),
        add_leaf_time: split(a.add_leaf_time, s.add_leaf_time),
        root_time: split(a.add_root_time, s.add_root_time),
    }
}

impl BreakdownCategoryStat {
    /// Splits the account-trie calculation time by category; what no
    /// category covers is `other_time`.
    pub fn from(record: &StateRootRecord) -> (r: Self)
        requires
            category_ok(*record),
        ensures
            r == category_stat(*record),
    {
        let try_next = TryNextStat::from(record);
        let a = &record.state_calculate_record;
        let s = &record.storage_calculate_record;
        let add_branch_time = OneDimensionalData::new(a.add_branch_time, s.add_branch_time);
        let add_leaf_time = OneDimensionalData::new(a.add_leaf_time, s.add_leaf_time);
        let root_time = OneDimensionalData::new(a.add_root_time, s.add_root_time);
        let other_time = a.total_time - try_next.data.total_time - add_branch_time.total
            - add_leaf_time.total - root_time.total;
        BreakdownCategoryStat {
            total_time: a.total_time,
            other_time,
            try_next_time: OneDimensionalData::new(
                try_next.data.account_trie_time,
                try_next.data.storage_trie_time,
            ),
            add_branch_time,
            add_leaf_time,
            root_time,
        }
    }
}

/// Nodes read by the trie walkers, by kind.
#[derive(Clone, Copy, Debug, Default)]
pub struct ReadNodeStat {
    pub total_count: u64,
    pub total_branch_node_count: u64,
    pub ro_branch_node: OneDimensionalData,
    pub update_branch_node_count: u64,
    pub total_leaf_count: u64,
    pub boundary_reading_leaf: OneDimensionalData,
    pub total_work_leaf_count: u64,
    pub ro_leaf: OneDimensionalData,
    pub updated_leaf: OneDimensionalData,
}

/// What `ReadNodeStat::from` needs of a record: each trie's work leaves
/// include its updated keys, and the totals fit.
pub open spec fn read_node_ok(record: StateRootRecord) -> bool {
    let a = record.state_calculate_record.try_next_stat;
    let s = record.storage_calculate_record.try_next_stat;
    let u = record.update_keys;
    &&& u.account_trie_count <= a.leaf_hit_count
    &&& u.storage_trie_count <= s.leaf_hit_count
    &&& a.skip_branch_node_count + s.skip_branch_node_count + record.delete_branch_count
        + a.leaf_miss_count + s.leaf_miss_count + a.leaf_hit_count + s.leaf_hit_count <= u64::MAX
}

/// The node figures of `record`.
pub open spec fn read_node_stat(record: StateRootRecord) -> ReadNodeStat {
    let a = record.state_calculate_record.try_next_stat;
    let s = record.storage_calculate_record.try_next_stat;
    let u = record.update_keys;
    let branch = a.skip_branch_node_count + s.skip_branch_node_count + record.delete_branch_count;
    let leaf = a.leaf_miss_count + s.leaf_miss_count + a.leaf_hit_count + s.leaf_hit_count;
    ReadNodeStat {
        total_count: (branch + leaf) as u64,
        total_branch_node_count: branch as u64,
        ro_branch_node: split(a.skip_branch_node_count, s.skip_branch_node_count),
        update_branch_node_count: record.delete_branch_count,
        total_leaf_count: leaf as u64,
        boundary_reading_leaf: split(a.leaf_miss_count, s.leaf_miss_count),
        total_work_leaf_count: (a.leaf_hit_count + s.leaf_hit_count) as u64,
        ro_leaf: split(
            (a.leaf_hit_count - u.account_trie_count) as u64,
            (s.leaf_hit_count - u.storage_trie_count) as u64,
        ),
        updated_leaf: split(u.account_trie_count, u.storage_trie_count),
    }
}

impl ReadNodeStat {
    /// Counts the branch nodes and leaves read: read-only branches skipped
    /// and deleted ones, boundary leaves and work leaves, the latter split
    /// into read-only and updated leaves.
    pub fn from(record: &StateRootRecord) -> (r: Self)
        requires
            read_node_ok(*record),
        ensures
            r == read_node_stat(*record),
    {
        let a = &record.state_calculate_record.try_next_stat;
        let s = &record.storage_calculate_record.try_next_stat;
        let u = &record.update_keys;
        let ro_branch_node = OneDimensionalData::new(a.skip_branch_node_count, s.skip_branch_node_count);
        let branch_node_count = ro_branch_node.total + record.delete_branch_count;
        let boundary_reading_leaf = OneDimensionalData::new(a.leaf_miss_count, s.leaf_miss_count);
        let work_leaf_count = a.leaf_hit_count + s.leaf_hit_count;
        let leaf_node_count = boundary_reading_leaf.total + work_leaf_count;
        let total_node_count = branch_node_count + leaf_node_count;
        let ro_leaf = OneDimensionalData::new(
            a.leaf_hit_count - u.account_trie_count,
            s.leaf_hit_count - u.storage_trie_count,
        );
        let updated_leaf = OneDimensionalData::new(u.account_trie_count, u.storage_trie_count);
        ReadNodeStat {
            total_count: total_node_count,
            total_branch_node_count: branch_node_count,
            ro_branch_node,
            update_branch_node_count: record.delete_branch_count,
            total_leaf_count: leaf_node_count,
            boundary_reading_leaf,
            total_work_leaf_count: work_leaf_count,
            ro_leaf,
            updated_leaf,
        }
    }
}

/// Counts and times of the HashBuilder steps over both kinds of trie.
#[derive(Clone, Copy, Debug, Default)]
pub struct HashBuilderStat {
    pub total_count: u64,
    pub total_time: u64,
    pub add_branch: TwoDimensionalData,
    pub add_leaf: TwoDimensionalData,
    pub root: TwoDimensionalData,
}

/// What `HashBuilderStat::from` needs of a record: the sums fit.
pub open spec fn hash_builder_ok(record: StateRootRecord) -> bool {
    let a = record.state_calculate_record;
    let s = record.storage_calculate_record;
    &&& a.add_branch_count + s.add_branch_count + a.add_leaf_count + s.add_leaf_count
        + a.add_root_count + s.add_root_count <= u64::MAX
    &&& a.add_branch_time + s.add_branch_time + a.add_leaf_time + s.add_leaf_time
        + a.add_root_time + s.add_root_time <= u64::MAX
}

/// The HashBuilder figures of `record`.
pub open spec fn hash_builder_stat(record: StateRootRecord) -> HashBuilderStat {
    let a = record.state_calculate_record;
    let s = record.storage_calculate_record;
    HashBuilderStat {
        total_count: (a.add_branch_count + s.add_branch_count + a.add_leaf_count + s.add_leaf_count
            + a.add_root_count + s.add_root_count) as u64,
        total_time: (a.add_branch_time + s.add_branch_time + a.add_leaf_time + s.add_leaf_time
            + a.add_root_time + s.add_root_time) as u64,
        add_branch: split2(a.add_branch_count, s.add_branch_count, a.add_branch_time, s.add_branch_time),
        add_leaf: split2(a.add_leaf_count, s.add_leaf_count, a.add_leaf_time, s.add_leaf_time),
        root: split2(a.add_root_count, s.add_root_count, a.add_root_time, s.add_root_time),
    }
}

impl HashBuilderStat {
    /// Sums the counts and times of add_branch, add_leaf and root.
    pub fn from(record: &StateRootRecord) -> (r: Self)
        requires
            hash_builder_ok(*record),
        ensures
            r == hash_builder_stat(*record),
    {
        let a = &record.state_calculate_record;
        let s = &record.storage_calculate_record;
        let add_branch = TwoDimensionalData::new(
            a.add_branch_count,
            s.add_branch_count,
            a.add_branch_time,
            s.add_branch_time,
        );
        let add_leaf = TwoDimensionalData::new(
            a.add_leaf_count,
            s.add_leaf_count,
            a.add_leaf_time,
            s.add_leaf_time,
        );
        let root = TwoDimensionalData::new(a.add_root_count, s.add_root_count, a.add_root_time, s.add_root_time);
        HashBuilderStat {
            total_count: add_branch.total_count + add_leaf.total_count + root.total_count,
            total_time: add_branch.total_time + add_leaf.total_time + root.total_time,
            add_branch,
            add_leaf,
            root,
        }
    }
}

/// Executions of keccak256 and their time.
#[derive(Clone, Copy, Debug, Default)]
pub struct Keccak256Stat {
    pub execute_count: u64,
    pub execute_time: u64,
}

impl Keccak256Stat {
    /// The keccak256 figures of `record`.
    pub fn from(record: &StateRootRecord) -> (r: Self)
        ensures
            r.execute_count == record.keccak256_record.count,
            r.execute_time == record.keccak256_record.time_cycles,
    {
        Keccak256Stat {
            execute_count: record.keccak256_record.count,
            execute_time: record.keccak256_record.time_cycles,
        }
    }

    /// Average cycles of one execution, rounded down; 0 where nothing ran.
    pub fn avg_time(&self) -> (r: u64)
        ensures
            r == if self.execute_count == 0 { 0 } else { self.execute_time / self.execute_count },
    {
        if self.execute_count == 0 {
            0
        } else {
            self.execute_time / self.execute_count
        }
    }
}

/// Keys updated in each kind of trie, beside the transactions that caused them.
#[derive(Clone, Copy, Debug, Default)]
pub struct UpdateKeysStat {
    pub total_txs_count: u64,
    pub update_key: OneDimensionalData,
}

impl UpdateKeysStat {
    /// The updated keys of `record`, split by trie and summed.
    pub fn from(record: &StateRootRecord) -> (r: Self)
        requires
            record.update_keys.account_trie_count + record.update_keys.storage_trie_count <= u64::MAX,
        ensures
            r.total_txs_count == record.total_txs_count,
            r.update_key == split(record.update_keys.account_trie_count, record.update_keys.storage_trie_count),
    {
        UpdateKeysStat {
            total_txs_count: record.total_txs_count,
            update_key: OneDimensionalData::new(
                record.update_keys.account_trie_count,
                record.update_keys.storage_trie_count,
            ),
        }
    }
}

/// Leaves and their depths in the account trie, the storage tries and the
/// whole state trie.
#[derive(Clone, Copy, Debug, Default)]
pub struct TrieStat {
    pub account_trie_leaf_count: u64,
    pub storage_trie_leaf_count: u64,
    pub account_trie_leaf_depth: u64,
    pub storage_trie_leaf_depth: u64,
    pub state_trie_leaf_count: u64,
    pub state_trie_leaf_depth: u64,
}

impl TrieStat {
    /// The trie shape of `record`.
    pub fn from(record: &StateRootRecord) -> (r: Self)
        ensures
            r.account_trie_leaf_count == record.state_trie_info.trie_node.leaf_number,
            r.storage_trie_leaf_count == record.storage_trie_info.trie_node.leaf_number,
            r.account_trie_leaf_depth == record.state_trie_info.trie_node.leaf_depth,
            r.storage_trie_leaf_depth == record.storage_trie_info.trie_node.leaf_depth,
            r.state_trie_leaf_count == record.state_trie_info.state_node.leaf_number,
            r.state_trie_leaf_depth == record.state_trie_info.state_node.leaf_depth,
    {
        TrieStat {
            account_trie_leaf_count: record.state_trie_info.trie_node.leaf_number,
            storage_trie_leaf_count: record.storage_trie_info.trie_node.leaf_number,
            account_trie_leaf_depth: record.state_trie_info.trie_node.leaf_depth,
            storage_trie_leaf_depth: record.storage_trie_info.trie_node.leaf_depth,
            state_trie_leaf_count: record.state_trie_info.state_node.leaf_number,
            state_trie_leaf_depth: record.state_trie_info.state_node.leaf_depth,
        }
    }
}

/// A count and a time.
#[derive(Clone, Copy, Debug, Default)]
pub struct CountAndTimeDate {
    pub count: u64,
    pub time: u64,
}

/// The count and time `count` and `time`.
pub open spec fn ct(count: int, time: int) -> CountAndTimeDate {
    CountAndTimeDate { count: count as u64, time: time as u64 }
}

/// Database reads of the state-root calculation, grouped by table and
/// cursor operation: the hashed account (`ha`) and hashed storage (`hs`)
/// tables make the leaf table, the account trie (`at`) and storage trie
/// (`st`) tables the branch table.
#[derive(Clone, Copy, Debug, Default)]
pub struct ReadDBStat {
    pub total: CountAndTimeDate,
    pub leaf_table: CountAndTimeDate,
    pub ha: CountAndTimeDate,
    pub ha_seek: CountAndTimeDate,
    pub ha_next: CountAndTimeDate,
    pub hs: CountAndTimeDate,
    pub hs_seek_exact: CountAndTimeDate,
    pub hs_seek_by_sub_key: CountAndTimeDate,
    pub hs_next_dup_val: CountAndTimeDate,
    pub branch_table: CountAndTimeDate,
    pub at: CountAndTimeDate,
    pub at_current: CountAndTimeDate,
    pub at_seek: CountAndTimeDate,
    pub at_seek_exact: CountAndTimeDate,
    pub st: CountAndTimeDate,
    pub st_seek_by_subkey: CountAndTimeDate,
    pub st_current: CountAndTimeDate,
}

/// Reads of the hashed account table.
pub open spec fn ha_count(d: DBReadRecord) -> int { d.seek_count + d.next_count }
/// Time of the hashed account table.
pub open spec fn ha_time(d: DBReadRecord) -> int { d.seek_time + d.next_time }
/// Reads of the hashed storage table.
pub open spec fn hs_count(d: DBReadRecord) -> int { d.seek_exact_count + d.seek_by_sub_key_count + d.next_dup_val_count }
/// Time of the hashed storage table.
pub open spec fn hs_time(d: DBReadRecord) -> int { d.seek_exact_time + d.seek_by_sub_key_time + d.next_dup_val_time }
/// Reads of the account trie table.
pub open spec fn at_count(d: DBReadRecord) -> int { d.at_seek_count + d.at_seek_exact_count + d.at_current_count }
/// Time of the account trie table.
pub open spec fn at_time(d: DBReadRecord) -> int { d.at_seek_time + d.at_seek_exact_time + d.at_current_time }
/// Reads of the storage trie table.
pub open spec fn st_count(d: DBReadRecord) -> int { d.st_seek_by_subkey_count + d.st_current_count }
/// Time of the storage trie table.
pub open spec fn st_time(d: DBReadRecord) -> int { d.st_seek_by_subkey_time + d.st_current_time }

/// What `ReadDBStat::from` needs of a record: the grand totals fit.
pub open spec fn read_db_ok(d: DBReadRecord) -> bool {
    &&& ha_count(d) + hs_count(d) + at_count(d) + st_count(d) <= u64::MAX
    &&& ha_time(d) + hs_time(d) + at_time(d) + st_time(d) <= u64::MAX
}

/// The read figures of `d`.
pub open spec fn read_db_stat(d: DBReadRecord) -> ReadDBStat {
    ReadDBStat {
        total: ct(ha_count(d) + hs_count(d) + at_count(d) + st_count(d), ha_time(d) + hs_time(d) + at_time(d) + st_time(d)),
        leaf_table: ct(ha_count(d) + hs_count(d), ha_time(d) + hs_time(d)),
        ha: ct(ha_count(d), ha_time(d)),
        ha_seek: ct(d.seek_count as int, d.seek_time as int),
        ha_next: ct(d.next_count as int, d.next_time as int),
        hs: ct(hs_count(d), hs_time(d)),
        hs_seek_exact: ct(d.seek_exact_count as int, d.seek_exact_time as int),
        hs_seek_by_sub_key: ct(d.seek_by_sub_key_count as int, d.seek_by_sub_key_time as int),
        hs_next_dup_val: ct(d.next_dup_val_count as int, d.next_dup_val_time as int),
        branch_table: ct(at_count(d) + st_count(d), at_time(d) + st_time(d)),
        at: ct(at_count(d), at_time(d)),
        at_current: ct(d.at_current_count as int, d.at_current_time as int),
        at_seek: ct(d.at_seek_count as int, d.at_seek_time as int),
        at_seek_exact: ct(d.at_seek_exact_count as int, d.at_seek_exact_time as int),
        st: ct(st_count(d), st_time(d)),
        st_seek_by_subkey: ct(d.st_seek_by_subkey_count as int, d.st_seek_by_subkey_time as int),
        st_current: ct(d.st_current_count as int, d.st_current_time as int),
    }
}

impl ReadDBStat {
    /// Groups the database reads of `record` by table, summing counts and
    /// times up to the leaf table, the branch table and the total.
    pub fn from(record: &StateRootRecord) -> (r: Self)
        requires
            read_db_ok(record.db_read),
        ensures
            r == read_db_stat(record.db_read),
    {
        let d = &record.db_read;
        let ha = CountAndTimeDate { count: d.seek_count + d.next_count, time: d.seek_time + d.next_time };
        let hs = CountAndTimeDate {
            count: d.seek_exact_count + d.seek_by_sub_key_count + d.next_dup_val_count,
            time: d.seek_exact_time + d.seek_by_sub_key_time + d.next_dup_val_time,
        };
        let leaf_table = CountAndTimeDate { count: ha.count + hs.count, time: ha.time + hs.time };
        let at = CountAndTimeDate {
            count: d.at_seek_count + d.at_seek_exact_count + d.at_current_count,
            time: d.at_seek_time + d.at_seek_exact_time + d.at_current_time,
        };
        let st = CountAndTimeDate {
            count: d.st_seek_by_subkey_count + d.st_current_count,
            time: d.st_seek_by_subkey_time + d.st_current_time,
        };
        let branch_table = CountAndTimeDate { count: at.count + st.count, time: at.time + st.time };
        let total = CountAndTimeDate {
            count: leaf_table.count + branch_table.count,
            time: leaf_table.time + branch_table.time,
        };
        ReadDBStat {
            total,
            leaf_table,
            ha,
            ha_seek: CountAndTimeDate { count: d.seek_count, time: d.seek_time },
            ha_next: CountAndTimeDate { count: d.next_count, time: d.next_time },
            hs,
            hs_seek_exact: CountAndTimeDate { count: d.seek_exact_count, time: d.seek_exact_time },
            hs_seek_by_sub_key: CountAndTimeDate { count: d.seek_by_sub_key_count, time: d.seek_by_sub_key_time },
            hs_next_dup_val: CountAndTimeDate { count: d.next_dup_val_count, time: d.next_dup_val_time },
            branch_table,
            at,
            at_current: CountAndTimeDate { count: d.at_current_count, time: d.at_current_time },
            at_seek: CountAndTimeDate { count: d.at_seek_count, time: d.at_seek_time },
            at_seek_exact: CountAndTimeDate { count: d.at_seek_exact_count, time: d.at_seek_exact_time },
            st,
            st_seek_by_subkey: CountAndTimeDate { count: d.st_seek_by_subkey_count, time: d.st_seek_by_subkey_time },
            st_current: CountAndTimeDate { count: d.st_current_count, time: d.st_current_time },
        }
    }
}

/// Database reads beside the keys updated.
#[derive(Clone, Copy, Debug, Default)]
pub struct ReadDBCountAndTimeStat {
    pub total_update_keys_count: u64,
    pub total_read_db_count: u64,
    pub total_read_db_time: u64,
}

impl ReadDBCountAndTimeStat {
    /// The keys updated in both kinds of trie, and the reads of all tables.
    pub fn from(record: &StateRootRecord) -> (r: Self)
        requires
            record.update_keys.account_trie_count + record.update_keys.storage_trie_count <= u64::MAX,
            read_db_ok(record.db_read),
        ensures
            r.total_update_keys_count == record.update_keys.account_trie_count
                + record.update_keys.storage_trie_count,
            r.total_read_db_count == read_db_stat(record.db_read).total.count,
            r.total_read_db_time == read_db_stat(record.db_read).total.time,
    {
        let read_db_stat = ReadDBStat::from(record);
        ReadDBCountAndTimeStat {
            total_update_keys_count: record.update_keys.account_trie_count + record.update_keys.storage_trie_count,
            total_read_db_count: read_db_stat.total.count,
            total_read_db_time: read_db_stat.total.time,
        }
    }

    /// Average cycles of one read, rounded down; 0 where nothing was read.
    pub fn avg_read_time(&self) -> (r: u64)
        ensures
            r == if self.total_read_db_count == 0 { 0 } else { self.total_read_db_time / self.total_read_db_count },
    {
        if self.total_read_db_count == 0 {
            0
        } else {
            self.total_read_db_time / self.total_read_db_count
        }
    }
}


/// The breakdown of an update adds up: its measured parts and the time
/// outside them make the total, and likewise within the account-trie and
/// storage-trie calculations.
pub proof fn lemma_breakdown_adds_up(record: StateRootRecord)
    requires
        state_calculate_ok(record),
        breakdown_parts(record) <= spec_total_time(record),
    ensures
        state_stat(record).misc_time + state_parts(record.state_calculate_record)
            == record.state_calculate_record.total_time,
        storage_stat(record.storage_calculate_record).misc_time + storage_parts(record.storage_calculate_record)
            == record.storage_calculate_record.total_time,
        state_stat(record).add_leaf_misc_time + record.storage_calculate_record.total_time
            + record.state_calculate_record.add_leaf_time
            == record.state_calculate_record.cal_storage_root_and_add_leaf_time,
        (spec_total_time(record) - breakdown_parts(record)) + breakdown_parts(record) == spec_total_time(record),
{
}

/// The read groups add up: each table's reads are those of its cursor
/// operations, the leaf and branch tables' those of their tables, and the
/// total those of both.
pub proof fn lemma_read_groups_add_up(d: DBReadRecord)
    requires
        read_db_ok(d),
    ensures
        ({
            let r = read_db_stat(d);
            &&& r.total.count == r.leaf_table.count + r.branch_table.count
            &&& r.total.time == r.leaf_table.time + r.branch_table.time
            &&& r.leaf_table.count == r.ha.count + r.hs.count
            &&& r.branch_table.count == r.at.count + r.st.count
            &&& r.ha.count == r.ha_seek.count + r.ha_next.count
            &&& r.hs.count == r.hs_seek_exact.count + r.hs_seek_by_sub_key.count + r.hs_next_dup_val.count
            &&& r.at.count == r.at_seek.count + r.at_seek_exact.count + r.at_current.count
            &&& r.st.count == r.st_seek_by_subkey.count + r.st_current.count
        }),
{
}

/// Each row of the read report is its record field, and each group's count
/// and time are those of its rows: the hashed-account table of seek and
/// next, the hashed-storage table of seek_exact, seek_by_sub_key and
/// next_dup_val, the account-trie table of seek, seek_exact and current,
/// the storage-trie table of seek_by_subkey and current; the leaf table of
/// the two hashed tables, the branch table of the two trie tables, and the
/// total of both.
pub proof fn lemma_read_db_rows(d: DBReadRecord)
    requires
        read_db_ok(d),
    ensures
        ({
            let r = read_db_stat(d);
            &&& r.ha_seek.count == d.seek_count && r.ha_seek.time == d.seek_time
            &&& r.ha_next.count == d.next_count && r.ha_next.time == d.next_time
            &&& r.hs_seek_exact.count == d.seek_exact_count && r.hs_seek_exact.time == d.seek_exact_time
            &&& r.hs_seek_by_sub_key.count == d.seek_by_sub_key_count && r.hs_seek_by_sub_key.time == d.seek_by_sub_key_time
            &&& r.hs_next_dup_val.count == d.next_dup_val_count && r.hs_next_dup_val.time == d.next_dup_val_time
            &&& r.at_seek.count == d.at_seek_count && r.at_seek.time == d.at_seek_time
            &&& r.at_seek_exact.count == d.at_seek_exact_count && r.at_seek_exact.time == d.at_seek_exact_time
            &&& r.at_current.count == d.at_current_count && r.at_current.time == d.at_current_time
            &&& r.st_seek_by_subkey.count == d.st_seek_by_subkey_count && r.st_seek_by_subkey.time == d.st_seek_by_subkey_time
            &&& r.st_current.count == d.st_current_count && r.st_current.time == d.st_current_time
            &&& r.ha.count == d.seek_count + d.next_count
            &&& r.ha.time == d.seek_time + d.next_time
            &&& r.hs.count == d.seek_exact_count + d.seek_by_sub_key_count + d.next_dup_val_count
            &&& r.hs.time == d.seek_exact_time + d.seek_by_sub_key_time + d.next_dup_val_time
            &&& r.at.count == d.at_seek_count + d.at_seek_exact_count + d.at_current_count
            &&& r.at.time == d.at_seek_time + d.at_seek_exact_time + d.at_current_time
            &&& r.st.count == d.st_seek_by_subkey_count + d.st_current_count
            &&& r.st.time == d.st_seek_by_subkey_time + d.st_current_time
            &&& r.leaf_table.count == r.ha.count + r.hs.count && r.leaf_table.time == r.ha.time + r.hs.time
            &&& r.branch_table.count == r.at.count + r.st.count && r.branch_table.time == r.at.time + r.st.time
            &&& r.total.count == r.leaf_table.count + r.branch_table.count
            &&& r.total.time == r.leaf_table.time + r.branch_table.time
        }),
{
}

/// The category breakdown shows, per category, the account-trie and
/// storage-trie times of the record and their sum; the time outside the
/// categories makes up the account-trie calculation's total.
pub proof fn lemma_category_rows(record: StateRootRecord)
    requires
        category_ok(record),
    ensures
        ({
            let r = category_stat(record);
            let a = record.state_calculate_record;
            let s = record.storage_calculate_record;
            &&& r.total_time == a.total_time
            &&& r.try_next_time.account_trie == a.try_next_stat.total_time
            &&& r.try_next_time.storage_trie == s.try_next_stat.total_time
            &&& r.add_branch_time.account_trie == a.add_branch_time
            &&& r.add_branch_time.storage_trie == s.add_branch_time
            &&& r.add_leaf_time.account_trie == a.add_leaf_time
            &&& r.add_leaf_time.storage_trie == s.add_leaf_time
            &&& r.root_time.account_trie == a.add_root_time
            &&& r.root_time.storage_trie == s.add_root_time
            &&& r.try_next_time.total == r.try_next_time.account_trie + r.try_next_time.storage_trie
            &&& r.add_branch_time.total == r.add_branch_time.account_trie + r.add_branch_time.storage_trie
            &&& r.add_leaf_time.total == r.add_leaf_time.account_trie + r.add_leaf_time.storage_trie
            &&& r.root_time.total == r.root_time.account_trie + r.root_time.storage_trie
            &&& r.other_time + r.try_next_time.total + r.add_branch_time.total + r.add_leaf_time.total
                + r.root_time.total == r.total_time
        }),
{
}

/// Each HashBuilder step row carries the record's counts and times per
/// trie and their sums, and the whole stat sums the three steps.
pub proof fn lemma_hash_builder_rows(record: StateRootRecord)
    requires
        hash_builder_ok(record),
    ensures
        ({
            let r = hash_builder_stat(record);
            let a = record.state_calculate_record;
            let s = record.storage_calculate_record;
            &&& r.add_branch.account_trie_count == a.add_branch_count && r.add_branch.storage_trie_count == s.add_branch_count
            &&& r.add_branch.account_trie_time == a.add_branch_time && r.add_branch.storage_trie_time == s.add_branch_time
            &&& r.add_leaf.account_trie_count == a.add_leaf_count && r.add_leaf.storage_trie_count == s.add_leaf_count
            &&& r.add_leaf.account_trie_time == a.add_leaf_time && r.add_leaf.storage_trie_time == s.add_leaf_time
            &&& r.root.account_trie_count == a.add_root_count && r.root.storage_trie_count == s.add_root_count
            &&& r.root.account_trie_time == a.add_root_time && r.root.storage_trie_time == s.add_root_time
            &&& r.add_branch.total_count == r.add_branch.account_trie_count + r.add_branch.storage_trie_count
            &&& r.add_branch.total_time == r.add_branch.account_trie_time + r.add_branch.storage_trie_time
            &&& r.add_leaf.total_count == r.add_leaf.account_trie_count + r.add_leaf.storage_trie_count
            &&& r.add_leaf.total_time == r.add_leaf.account_trie_time + r.add_leaf.storage_trie_time
            &&& r.root.total_count == r.root.account_trie_count + r.root.storage_trie_count
            &&& r.root.total_time == r.root.account_trie_time + r.root.storage_trie_time
            &&& r.total_count == r.add_branch.total_count + r.add_leaf.total_count + r.root.total_count
            &&& r.total_time == r.add_branch.total_time + r.add_leaf.total_time + r.root.total_time
        }),
{
}

/// The node report: per trie, the work leaves split into read-only and
/// updated ones, the updated ones being the updated keys; the boundary
/// leaves and read-only branches are the record's counts; the branch
/// nodes are the read-only and the deleted ones, the leaves the boundary
/// and work leaves, and the total both.
pub proof fn lemma_read_node_rows(record: StateRootRecord)
    requires
        read_node_ok(record),
    ensures
        ({
            let r = read_node_stat(record);
            let a = record.state_calculate_record.try_next_stat;
            let s = record.storage_calculate_record.try_next_stat;
            let u = record.update_keys;
            &&& r.updated_leaf.account_trie == u.account_trie_count
            &&& r.updated_leaf.storage_trie == u.storage_trie_count
            &&& r.ro_leaf.account_trie + r.updated_leaf.account_trie == a.leaf_hit_count
            &&& r.ro_leaf.storage_trie + r.updated_leaf.storage_trie == s.leaf_hit_count
            &&& r.boundary_reading_leaf.account_trie == a.leaf_miss_count
            &&& r.boundary_reading_leaf.storage_trie == s.leaf_miss_count
            &&& r.ro_branch_node.account_trie == a.skip_branch_node_count
            &&& r.ro_branch_node.storage_trie == s.skip_branch_node_count
            &&& r.update_branch_node_count == record.delete_branch_count
            &&& r.ro_leaf.total == r.ro_leaf.account_trie + r.ro_leaf.storage_trie
            &&& r.updated_leaf.total == r.updated_leaf.account_trie + r.updated_leaf.storage_trie
            &&& r.boundary_reading_leaf.total == r.boundary_reading_leaf.account_trie + r.boundary_reading_leaf.storage_trie
            &&& r.ro_branch_node.total == r.ro_branch_node.account_trie + r.ro_branch_node.storage_trie
            &&& r.total_work_leaf_count == a.leaf_hit_count + s.leaf_hit_count
            &&& r.total_work_leaf_count == r.ro_leaf.total + r.updated_leaf.total
            &&& r.total_branch_node_count == r.ro_branch_node.total + r.update_branch_node_count
            &&& r.total_leaf_count == r.boundary_reading_leaf.total + r.total_work_leaf_count
            &&& r.total_count == r.total_branch_node_count + r.total_leaf_count
        }),
{
}

/// The try_next report carries each trie's try_next count and time and
/// their sums.
pub proof fn lemma_try_next_rows(record: StateRootRecord)
    requires
        try_next_ok(record),
    ensures
        ({
            let r = try_next_stat(record).data;
            let a = record.state_calculate_record.try_next_stat;
            let s = record.storage_calculate_record.try_next_stat;
            &&& r.account_trie_count == a.total_count && r.storage_trie_count == s.total_count
            &&& r.account_trie_time == a.total_time && r.storage_trie_time == s.total_time
            &&& r.total_count == r.account_trie_count + r.storage_trie_count
            &&& r.total_time == r.account_trie_time + r.storage_trie_time
        }),
{
}

/// The calculation breakdowns carry the record's step times; the storage
/// trie's misc time and steps make its total, and the account trie's misc
/// time and steps (its add_leaf step including the storage calculation)
/// make its total; the add_leaf step splits into the storage calculation,
/// HashBuilder.add_leaf and the rest.
pub proof fn lemma_calculate_rows(record: StateRootRecord)
    requires
        state_calculate_ok(record),
    ensures
        ({
            let r = state_stat(record);
            let t = r.storage_cal_stat;
            let a = record.state_calculate_record;
            let s = record.storage_calculate_record;
            &&& t == storage_stat(s)
            &&& t.total_time == s.total_time && t.before_loop_time == s.before_loop_time
            &&& t.try_next_time == s.try_next_stat.total_time && t.add_branch_time == s.add_branch_time
            &&& t.add_leaf_time == s.add_leaf_time && t.root_time == s.add_root_time
            &&& t.after_root_time == s.after_add_root_time
            &&& t.misc_time + t.before_loop_time + t.try_next_time + t.add_branch_time + t.add_leaf_time
                + t.root_time + t.after_root_time == t.total_time
            &&& r.total_time == a.total_time && r.before_loop_time == a.before_loop_time
            &&& r.try_next_time == a.try_next_stat.total_time && r.add_branch_time == a.add_branch_time
            &&& r.cal_storage_root_and_add_leaf_time == a.cal_storage_root_and_add_leaf_time
            &&& r.add_leaf_time == a.add_leaf_time && r.root_time == a.add_root_time
            &&& r.after_root_time == a.after_add_root_time
            &&& r.misc_time + r.before_loop_time + r.try_next_time + r.add_branch_time
                + r.cal_storage_root_and_add_leaf_time + r.root_time + r.after_root_time == r.total_time
            &&& r.add_leaf_misc_time + t.total_time + r.add_leaf_time == r.cal_storage_root_and_add_leaf_time
        }),
{
}

/// The function breakdown carries the record's phase times; with a
/// recorded total it is that total, else the sum of the state-root phases;
/// the misc time and the phases make the total.
pub proof fn lemma_breakdown_rows(record: StateRootRecord)
    requires
        state_calculate_ok(record),
        record.total_time == 0 ==> phase_sum(record) <= u64::MAX,
        breakdown_parts(record) <= spec_total_time(record),
    ensures
        ({
            let total = if record.total_time != 0 {
                record.total_time as int
            } else {
                record.hash_state_slow_time + record.construct_prefix_sets_time
                    + record.state_calculate_record.total_time + record.state_write_to_db_time
                    + record.hashed_state_write_time + record.flush_time
            };
            &&& spec_total_time(record) == total
            &&& (spec_total_time(record) - breakdown_parts(record)) + record.block_td_time
                + record.block_with_senders_time + record.execute_and_verify_receipt_time
                + record.hash_state_slow_time + record.construct_prefix_sets_time
                + state_stat(record).total_time + record.state_write_to_db_time
                + record.hashed_state_write_time + record.flush_time == total
        }),
{
}

} // verus!
