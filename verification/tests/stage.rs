use perf_metrics::bench::{batch_step, merge_block, BenchStateProviderDatabase, BlockParts};
use perf_metrics::db_metric::{
    add_db_read_record, add_db_write_record, finish_read, get_db_record, read_size,
    start_db_record, DbMetricRecorder, WriteRecord,
};
use perf_metrics::revm_execute::{
    add_receipt_record, apply_post_block_changes_record, commit_changes_record,
    get_execute_tx_record, start_execute_tx_record, start_execute_tx_sub_recorder,
    transact_record, verify_receipt_record, ApplyPostBlockChangesRecord, ExecuteTxsRecord,
};
use perf_metrics::stage_metrics::{count_elapsed, DbSpeedRecord, ExecutionDurationRecord};
use perf_metrics::time::{CycleInstant, Duration};

fn ns(n: u64) -> Duration {
    Duration::from_nanos(n)
}

#[test]
fn stage_record_counts_measurements() {
    let mut r = ExecutionDurationRecord::default();
    r.start_inner_time_recorder();
    r.start_time_recorder();
    r.add_read_block();
    r.add_execute_tx();
    r.add_process_state();
    r.add_write_to_db();
    r.add_execute_inner();
    r.add_execute_inner();
    assert_eq!(r.execute_inner.0, 2);
    assert_eq!(r.read_block.0, 1);
    assert_eq!(r.write_to_db.0, 1);
}

#[test]
fn stage_record_add_and_pure_record() {
    let mut a = ExecutionDurationRecord::default();
    a.execute_inner = (2, ns(100));
    a.read_block = (1, ns(50));
    a.execute_tx = (3, ns(60));
    a.process_state = (0, ns(5));
    a.write_to_db = (1, ns(7));
    let mut b = ExecutionDurationRecord::default();
    b.execute_inner = (4, ns(1000));
    b.execute_tx = (1, ns(10));
    a.add(b);
    assert_eq!(a.execute_inner.0, 6);
    assert_eq!(a.execute_inner.1.as_nanos(), 1100);
    assert_eq!(a.execute_tx.0, 3 + 1);
    assert_eq!(a.execute_tx.1.as_nanos(), 70);
    let p = a.pure_record();
    assert_eq!(p.execute_inner.0, 6);
    assert_eq!(p.execute_inner.1.as_nanos(), 1100 - 42);
    assert_eq!(p.read_block.1.as_nanos(), 43);
    assert_eq!(p.execute_tx.1.as_nanos(), 70 - 28);
    assert_eq!(p.process_state.1.as_nanos(), 5);
    assert_eq!(p.write_to_db.1.as_nanos(), 0);
}

#[test]
fn count_elapsed_adds_one_measurement() {
    let s = count_elapsed((4, ns(10)), ns(5));
    assert_eq!(s.0, 5);
    assert_eq!(s.1.as_nanos(), 15);
}

#[test]
fn db_speed_record_adders() {
    let mut r = DbSpeedRecord::default();
    r.add_read_header_td_db_time(ns(10), 2);
    r.add_read_header_td_db_size(100);
    r.add_read_block_with_senders_db_time(ns(20), 1);
    r.add_read_block_with_senders_db_size(200);
    r.add_write_to_db_time(ns(30), 3);
    r.add_write_to_db_time(ns(30), 1);
    r.add_write_to_db_size(300);
    assert_eq!(r.read_header_td_db_time.0, 2);
    assert_eq!(r.read_header_td_db_time.1.as_nanos(), 10);
    assert_eq!(r.read_block_with_senders_db_size, 200);
    assert_eq!(r.write_to_db_time.0, 3 + 1);
    assert_eq!(r.write_to_db_time.1.as_nanos(), 60);
    let mut s = DbSpeedRecord::default();
    s.add(r);
    s.add(r);
    assert_eq!(s.write_to_db_time.0, 8);
    assert_eq!(s.read_header_td_db_size, 200);
    let mut t = DbSpeedRecord::default();
    t.add_read_header_td_db_time(ns(100), 2);
    t.add_write_to_db_size(5);
    let p = t.pure_record();
    assert_eq!(p.read_header_td_db_time.0, 2);
    assert_eq!(p.read_header_td_db_time.1.as_nanos(), 100 - 2 * 7);
    assert_eq!(p.write_to_db_size, 5);
}

#[test]
fn db_metric_counts_only_after_start() {
    let mut rec = DbMetricRecorder::new();
    add_db_read_record(&mut rec, 10, ns(1));
    let (rs, rt, ws, wt) = get_db_record(&rec);
    assert_eq!((rs, rt.as_nanos(), ws, wt.as_nanos()), (0, 0, 0, 0));
    start_db_record(&mut rec);
    add_db_read_record(&mut rec, 10, ns(1));
    add_db_write_record(&mut rec, 20, ns(2));
    add_db_write_record(&mut rec, 5, ns(3));
    let (rs, rt, ws, wt) = get_db_record(&rec);
    assert_eq!((rs, rt.as_nanos(), ws, wt.as_nanos()), (10, 1, 25, 5));
    start_db_record(&mut rec);
    assert_eq!(get_db_record(&rec).0, 0);
}

#[test]
fn db_metric_reads_and_writes() {
    assert_eq!(read_size(true, 8, 32), 40);
    assert_eq!(read_size(false, 8, 32), 32);
    let mut rec = DbMetricRecorder::new();
    start_db_record(&mut rec);
    finish_read(&mut rec, 0, ns(9));
    assert_eq!(get_db_record(&rec).1.as_nanos(), 0);
    finish_read(&mut rec, 12, ns(9));
    assert_eq!(get_db_record(&rec).0, 12);
    let w = WriteRecord::new(64);
    let e = w.elapsed();
    w.finish(&mut rec, e);
    assert_eq!(get_db_record(&rec).2, 64);
}

#[test]
fn revm_execute_steps() {
    let mut r = ExecuteTxsRecord::default();
    let at = CycleInstant::from_cycles;
    start_execute_tx_record(&mut r, at(0));
    start_execute_tx_sub_recorder(&mut r, at(0));
    transact_record(&mut r, at(3));
    commit_changes_record(&mut r, at(7));
    add_receipt_record(&mut r, at(12));
    let g = ApplyPostBlockChangesRecord::new(&mut r, at(20));
    g.finish(&mut r, at(26));
    verify_receipt_record(&mut r, at(33));
    let c = get_execute_tx_record(&r);
    assert_eq!(c.transact(), 3);
    assert_eq!(c.commit_changes(), 4);
    assert_eq!(c.add_receipt(), 5);
    assert_eq!(c.apply_post_block_changes(), 6);
    assert_eq!(c.verify_receipt(), 7);
    assert_eq!(c.total(), 33);
    apply_post_block_changes_record(&mut r, at(30));
    assert_eq!(r.apply_post_block_changes, 6);
}

#[test]
fn bench_merge_and_batch() {
    let db = BenchStateProviderDatabase::new("blocks", "state");
    assert_eq!(db.block_reader, "blocks");
    assert_eq!(db.state_reader, "state");
    let to = BlockParts {
        senders: vec![1u8],
        body: vec![10u16],
        ommers: vec![100u32],
        withdrawals: Some(vec![7u8]),
        requests: None::<Vec<u8>>,
        header: "old",
    };
    let from = BlockParts {
        senders: vec![2u8, 3],
        body: vec![20u16],
        ommers: vec![],
        withdrawals: Some(vec![8u8]),
        requests: Some(vec![9u8]),
        header: "new",
    };
    let m = merge_block(from, to);
    assert_eq!(m.senders, vec![1, 2, 3]);
    assert_eq!(m.body, vec![10, 20]);
    assert_eq!(m.ommers, vec![100]);
    assert_eq!(m.withdrawals, Some(vec![7, 8]));
    assert_eq!(m.requests, Some(vec![9]));
    assert_eq!(m.header, "new");
    assert_eq!(batch_step(0, 5, false, 10), (0, true));
    assert_eq!(batch_step(0, 5, true, 10), (5, false));
    assert_eq!(batch_step(5, 5, true, 10), (0, true));
}

#[test]
fn two_writes_add_up() {
    let mut rec = DbMetricRecorder::new();
    let w = WriteRecord::new(64);
    w.finish(&mut rec, ns(5));
    assert_eq!(get_db_record(&rec).2, 0);
    start_db_record(&mut rec);
    add_db_read_record(&mut rec, 9, ns(1));
    WriteRecord::new(64).finish(&mut rec, ns(5));
    WriteRecord::new(36).finish(&mut rec, ns(7));
    let (rs, rt, ws, wt) = get_db_record(&rec);
    assert_eq!((rs, rt.as_nanos(), ws, wt.as_nanos()), (9, 1, 100, 12));
}

#[test]
fn apply_post_block_changes_touches_only_its_step() {
    let mut r = ExecuteTxsRecord::default();
    r.transact = 5;
    r.total = 9;
    let g = ApplyPostBlockChangesRecord::new(&mut r, CycleInstant::from_cycles(100));
    g.finish(&mut r, CycleInstant::from_cycles(130));
    assert_eq!((r.apply_post_block_changes, r.transact, r.total), (30, 5, 9));
}
