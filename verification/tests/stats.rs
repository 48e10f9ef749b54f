use perf_metrics::state_root::StateRootRecord;
use perf_metrics::state_root_stats::{
    BreakdownCategoryStat, BreakdownStat, ChainDataStat, HashBuilderStat, Keccak256Stat,
    OneDimensionalData, ReadDBCountAndTimeStat, ReadDBStat, ReadNodeStat, StateCalculateStat,
    StorageCalculateStat, TrieStat, TryNextStat, TwoDimensionalData, UpdateKeysStat,
};

fn sample() -> StateRootRecord {
    let mut r = StateRootRecord::new();
    r.start_block_number = 100;
    r.end_block_number = 109;
    r.total_txs_count = 55;
    r.update_keys.account_trie_count = 4;
    r.update_keys.storage_trie_count = 6;
    r.block_td_time = 1;
    r.block_with_senders_time = 2;
    r.execute_and_verify_receipt_time = 3;
    r.hash_state_slow_time = 10;
    r.construct_prefix_sets_time = 20;
    r.state_write_to_db_time = 30;
    r.hashed_state_write_time = 40;
    r.flush_time = 50;
    let s = &mut r.storage_calculate_record;
    s.total_time = 100;
    s.before_loop_time = 5;
    s.try_next_stat.total_time = 20;
    s.try_next_stat.total_count = 7;
    s.try_next_stat.skip_branch_node_count = 2;
    s.try_next_stat.leaf_miss_count = 1;
    s.try_next_stat.leaf_hit_count = 9;
    s.add_branch_time = 10;
    s.add_branch_count = 3;
    s.add_leaf_time = 15;
    s.add_leaf_count = 4;
    s.add_root_time = 6;
    s.add_root_count = 1;
    s.after_add_root_time = 4;
    let a = &mut r.state_calculate_record;
    a.total_time = 400;
    a.before_loop_time = 8;
    a.try_next_stat.total_time = 30;
    a.try_next_stat.total_count = 11;
    a.try_next_stat.skip_branch_node_count = 3;
    a.try_next_stat.leaf_miss_count = 2;
    a.try_next_stat.leaf_hit_count = 5;
    a.add_branch_time = 12;
    a.add_branch_count = 2;
    a.cal_storage_root_and_add_leaf_time = 200;
    a.add_leaf_time = 25;
    a.add_leaf_count = 5;
    a.add_root_time = 9;
    a.add_root_count = 1;
    a.after_add_root_time = 11;
    r.delete_branch_count = 4;
    r.keccak256_record.count = 4;
    r.keccak256_record.time_cycles = 10;
    r.db_read.seek_count = 1;
    r.db_read.seek_time = 10;
    r.db_read.next_count = 2;
    r.db_read.next_time = 20;
    r.db_read.seek_exact_count = 3;
    r.db_read.seek_exact_time = 30;
    r.db_read.at_seek_count = 4;
    r.db_read.at_seek_time = 40;
    r.db_read.st_current_count = 5;
    r.db_read.st_current_time = 50;
    r
}

#[test]
fn chain_data_counts_blocks_inclusively() {
    let c = ChainDataStat::from(&sample());
    assert_eq!(c.total_block_count, 10);
    assert_eq!(c.total_txs_count, 55);
}

#[test]
fn calculate_stats_leave_misc_time() {
    let r = sample();
    let st = StorageCalculateStat::from(&r);
    assert_eq!(st.misc_time, 100 - 5 - 20 - 10 - 15 - 6 - 4);
    let sc = StateCalculateStat::from(&r);
    assert_eq!(sc.add_leaf_misc_time, 200 - 100 - 25);
    assert_eq!(sc.misc_time, 400 - 8 - 30 - 12 - 200 - 9 - 11);
    assert_eq!(sc.storage_cal_stat.total_time, 100);
}

#[test]
fn breakdown_total_falls_back_to_phase_sum() {
    let mut r = sample();
    assert_eq!(BreakdownStat::total_time(&r), 10 + 20 + 400 + 30 + 40 + 50);
    r.total_time = 2000;
    assert_eq!(BreakdownStat::total_time(&r), 2000);
    let b = BreakdownStat::from(&r);
    assert_eq!(b.misc_time, 2000 - (1 + 2 + 3 + 10 + 20 + 400 + 30 + 40 + 50));
    assert_eq!(b.state_trie_cal_stats.total_time, 400);
}

#[test]
fn try_next_and_category_sums() {
    let r = sample();
    let t = TryNextStat::from(&r);
    assert_eq!(t.data.total_count, 18);
    assert_eq!(t.data.total_time, 50);
    let c = BreakdownCategoryStat::from(&r);
    assert_eq!(c.add_branch_time.total, 22);
    assert_eq!(c.add_leaf_time.total, 40);
    assert_eq!(c.root_time.total, 15);
    assert_eq!(c.other_time, 400 - 50 - 22 - 40 - 15);
}

#[test]
fn read_nodes_split_leaves() {
    let n = ReadNodeStat::from(&sample());
    assert_eq!(n.ro_branch_node.total, 5);
    assert_eq!(n.total_branch_node_count, 9);
    assert_eq!(n.boundary_reading_leaf.total, 3);
    assert_eq!(n.total_work_leaf_count, 14);
    assert_eq!(n.total_leaf_count, 17);
    assert_eq!(n.total_count, 26);
    assert_eq!(n.ro_leaf.account_trie, 1);
    assert_eq!(n.ro_leaf.storage_trie, 3);
    assert_eq!(n.updated_leaf.total, 10);
}

#[test]
fn hash_builder_sums() {
    let h = HashBuilderStat::from(&sample());
    assert_eq!(h.total_count, 3 + 2 + 4 + 5 + 1 + 1);
    assert_eq!(h.total_time, 10 + 12 + 15 + 25 + 6 + 9);
    assert_eq!(h.add_leaf.total_count, 9);
}

#[test]
fn keccak_and_update_keys() {
    let r = sample();
    let k = Keccak256Stat::from(&r);
    assert_eq!(k.avg_time(), 2);
    let empty = Keccak256Stat { execute_count: 0, execute_time: 5 };
    assert_eq!(empty.avg_time(), 0);
    let u = UpdateKeysStat::from(&r);
    assert_eq!(u.update_key.total, 10);
    let t = TrieStat::from(&r);
    assert_eq!(t.account_trie_leaf_count, 0);
}

#[test]
fn read_db_groups() {
    let r = sample();
    let d = ReadDBStat::from(&r);
    assert_eq!(d.ha.count, 3);
    assert_eq!(d.hs.time, 30);
    assert_eq!(d.leaf_table.count, 6);
    assert_eq!(d.branch_table.count, 9);
    assert_eq!(d.total.count, 15);
    assert_eq!(d.total.time, 150);
    let c = ReadDBCountAndTimeStat::from(&r);
    assert_eq!(c.total_update_keys_count, 10);
    assert_eq!(c.avg_read_time(), 10);
}

#[test]
fn split_data_constructors() {
    let o = OneDimensionalData::new(3, 4);
    assert_eq!(o.total, 7);
    let t = TwoDimensionalData::new(1, 2, 30, 40);
    assert_eq!(t.total_count, 3);
    assert_eq!(t.total_time, 70);
}
