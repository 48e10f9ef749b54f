use perf_metrics::execute_tx::ExecuteTxsRecord;
use perf_metrics::metric::{
    add_receipt_record, apply_post_execution_state_change_record, commit_changes_record,
    get_execute_tx_record, merge_transactions_record, record_after_block_with_senders,
    record_after_get_tps, record_after_take_output_state, record_after_td, record_at_end,
    record_before_loop, record_before_td, record_receipts_append_time, record_revert_account_size,
    record_revert_account_time, record_revert_storage_append_time, record_revert_storage_size,
    record_revert_storage_time, record_sort_time, record_state_account_size,
    record_state_account_time, record_state_account_upsert_time, record_state_bytecode_size,
    record_state_bytecode_time, record_state_bytecode_upsert_time, record_state_storage_size,
    record_state_storage_time, record_state_storage_upsert_time, record_write_receipts_size,
    record_write_receipts_time, save_receipts_record, set_block_number, start_execute_tx_record,
    start_execute_tx_sub_record, start_record, start_write_to_db_record,
    start_write_to_db_sub_record, start_write_to_db_write_record, transact_record,
    verify_receipt_record, MetricEvent, PerfMetric, VerifyAndSaveReceiptsRecord,
};
use perf_metrics::time::CycleInstant;
use perf_metrics::tps_gas::TpsAndGasMessage;

fn at(c: u64) -> CycleInstant {
    CycleInstant::from_cycles(c)
}

#[test]
fn fetch_time_accumulates_over_td_and_senders() {
    let mut m = PerfMetric::default();
    start_record(&mut m, at(100));
    record_before_td(&mut m, at(110), 7);
    assert_eq!(m.block_number, 7);
    record_after_td(&mut m, at(130));
    record_after_block_with_senders(&mut m, at(175));
    assert_eq!(m.duration_record.fetch_block, 65);
    assert_eq!(m.duration_record.time_recorder.cycles, 175);
    let e = record_at_end(&mut m, at(400));
    assert_eq!(m.duration_record.total, 300);
    match e {
        MetricEvent::ExecutionStageTime { block_number, record } => {
            assert_eq!(block_number, 7);
            assert_eq!(record.total, 300);
            assert_eq!(record.fetch_block, 65);
        }
        _ => panic!("wrong event"),
    }
}

#[test]
fn tps_events_use_current_block() {
    let mut m = PerfMetric::default();
    record_before_td(&mut m, at(1), 42);
    match record_before_loop(&m) {
        MetricEvent::BlockTpsAndGas { block_number, record: TpsAndGasMessage::Switch(on) } => {
            assert_eq!(block_number, 42);
            assert!(on);
        }
        _ => panic!("wrong event"),
    }
    let e = record_after_get_tps(&mut m, 99, 10, 21000);
    let e2 = record_after_get_tps(&mut m, 100, 5, 1000);
    assert_eq!(m.tps_gas_record.txs(), 15);
    assert_eq!(m.tps_gas_record.gas(), 22000);
    assert_eq!(m.tps_gas_record.block_number(), 100);
    match (e, e2) {
        (
            MetricEvent::BlockTpsAndGas { block_number: b1, record: TpsAndGasMessage::Record(r1) },
            MetricEvent::BlockTpsAndGas { block_number: b2, record: TpsAndGasMessage::Record(r2) },
        ) => {
            assert_eq!(b1, 42);
            assert_eq!(b2, 42);
            assert_eq!(r1.txs(), 10);
            assert_eq!(r2.gas(), 22000);
        }
        _ => panic!("wrong events"),
    }
    match record_after_take_output_state(&mut m, at(50)) {
        MetricEvent::BlockTpsAndGas { record: TpsAndGasMessage::Switch(on), .. } => assert!(!on),
        _ => panic!("wrong event"),
    }
    assert_eq!(m.duration_record.time_recorder.cycles, 50);
}

#[test]
fn execute_tx_steps_and_total() {
    let mut m = PerfMetric::default();
    start_execute_tx_record(&mut m, at(1000));
    start_execute_tx_sub_record(&mut m, at(1000));
    transact_record(&mut m, at(1010));
    commit_changes_record(&mut m, at(1030));
    add_receipt_record(&mut m, at(1060));
    apply_post_execution_state_change_record(&mut m, at(1100));
    merge_transactions_record(&mut m, at(1150));
    let guard = VerifyAndSaveReceiptsRecord::new(&mut m, at(1210));
    guard.finish(&mut m, at(1280));
    let r: ExecuteTxsRecord = get_execute_tx_record(&m);
    assert_eq!(r.transact(), 10);
    assert_eq!(r.commit_changes(), 20);
    assert_eq!(r.add_receipt(), 30);
    assert_eq!(r.apply_post_execution_state_change(), 40);
    assert_eq!(r.merge_transactions(), 50);
    assert_eq!(r.verify_receipt(), 60);
    assert_eq!(r.save_receipts(), 70);
    assert_eq!(r.total(), 280);
}

#[test]
fn step_ending_before_its_start_counts_zero() {
    let mut m = PerfMetric::default();
    start_execute_tx_sub_record(&mut m, at(500));
    transact_record(&mut m, at(400));
    assert_eq!(m.execute_tx_record.transact, 0);
    assert_eq!(m.execute_tx_record.sub_record.cycles, 400);
    save_receipts_record(&mut m, at(450));
    assert_eq!(m.execute_tx_record.save_receipts, 50);
    assert_eq!(m.execute_tx_record.total, 450);
    verify_receipt_record(&mut m, at(460));
    assert_eq!(m.execute_tx_record.verify_receipt, 10);
}

#[test]
fn write_to_db_steps_sizes_and_total() {
    let mut m = PerfMetric::default();
    start_write_to_db_record(&mut m, at(0));
    start_write_to_db_sub_record(&mut m, at(0));
    start_write_to_db_write_record(&mut m, at(2));
    record_revert_storage_append_time(&mut m, at(5));
    record_revert_storage_size(&mut m, 64);
    record_revert_storage_time(&mut m, at(10));
    start_write_to_db_write_record(&mut m, at(11));
    record_revert_account_size(&mut m, 100);
    record_revert_account_time(&mut m, at(20));
    record_receipts_append_time(&mut m, at(15));
    record_write_receipts_size(&mut m, 7);
    record_write_receipts_time(&mut m, at(30));
    record_sort_time(&mut m, at(35));
    start_write_to_db_write_record(&mut m, at(36));
    record_state_account_upsert_time(&mut m, at(38));
    record_state_account_size(&mut m, 100);
    record_state_account_time(&mut m, at(40));
    start_write_to_db_write_record(&mut m, at(41));
    record_state_bytecode_upsert_time(&mut m, at(44));
    record_state_bytecode_size(&mut m, 90);
    record_state_bytecode_time(&mut m, at(45));
    start_write_to_db_write_record(&mut m, at(46));
    record_state_storage_upsert_time(&mut m, at(49));
    record_state_storage_size(&mut m, 84);
    record_state_storage_time(&mut m, at(60));
    let w = m.write_to_db_record;
    assert_eq!(w.revert_storage_append_time(), 3);
    assert_eq!(w.revert_storage_time(), 10);
    assert_eq!(w.revert_account_time(), 10);
    assert_eq!(w.receipts_append_time(), 4);
    assert_eq!(w.write_receipts_time(), 10);
    assert_eq!(w.sort_time(), 5);
    assert_eq!(w.state_account_time(), 5);
    assert_eq!(w.state_account_upsert_time(), 2);
    assert_eq!(w.state_bytecode_time(), 5);
    assert_eq!(w.state_bytecode_upsert_time(), 3);
    assert_eq!(w.state_storage_time(), 15);
    assert_eq!(w.state_storage_upsert_time(), 3);
    assert_eq!(w.total_time(), 60);
    assert_eq!(w.revert_storage_size(), 64);
    assert_eq!(w.revert_account_size(), 100);
    assert_eq!(w.write_receipts_size(), 7);
    assert_eq!(w.state_account_size(), 100);
    assert_eq!(w.state_bytecode_size(), 90);
    assert_eq!(w.state_storage_size(), 84);
}

#[test]
fn state_root_block_range_starts_once() {
    let mut m = PerfMetric::default();
    set_block_number(&mut m, 10);
    set_block_number(&mut m, 11);
    set_block_number(&mut m, 15);
    assert_eq!(m.state_root_record.start_block_number, 10);
    assert_eq!(m.state_root_record.end_block_number, 15);
    assert!(m.state_root_start_set);
}

#[test]
fn block_range_over_many_calls() {
    let mut m = PerfMetric::default();
    for b in [3u64, 1, 8, 5] {
        set_block_number(&mut m, b);
    }
    assert_eq!(m.state_root_record.start_block_number, 3);
    assert_eq!(m.state_root_record.end_block_number, 5);
}
