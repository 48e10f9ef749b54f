use perf_metrics::display::{
    next_print, tps, write_to_db_breakdown, DBSpeedDisplayer, TpsAndGasRecordDisplayer,
};
use perf_metrics::node_display::{DBSpeedDisplayer as NodeDbSpeed, TpsAndGasRecordDisplayer as NodeTps};
use perf_metrics::opcode::{
    category, category_name, gas_parts, opcode_info, opcode_totals, static_gas, OpcodeCategory,
    CATEGORY_BUCKETS,
};
use perf_metrics::speed::DatabaseOperationRecord;
use perf_metrics::stage_metrics::DbSpeedRecord;
use perf_metrics::time::Duration;
use perf_metrics::write_to_db::WriteToDbRecord;

#[test]
fn print_schedule() {
    assert_eq!(next_print(0, 5), (false, 5));
    assert_eq!(next_print(5, 1000), (true, 1000));
    assert_eq!(next_print(5, 1004), (false, 5));
    assert_eq!(next_print(5, 1005), (true, 1005));
    assert_eq!(next_print(1004, 1500), (false, 1004));
    assert_eq!(next_print(1004, 2004), (true, 2004));
    assert_eq!(next_print(0, 3000), (true, 3000));
}

#[test]
fn tps_formula() {
    assert_eq!(tps(50, 2_000_000_000), 25);
    assert_eq!(tps(1, 3), 333_333_333);
}

#[test]
fn tps_displayer_reports_deltas() {
    let mut d = TpsAndGasRecordDisplayer::default();
    assert!(!d.update_tps_and_gas(10, 100, 1000));
    d.start_record(10);
    assert_eq!(d.pre_txs, 100);
    assert_eq!(d.pre_gas, 1000);
    assert!(d.timer_switch);
    d.update_tps_and_gas(11, 500, 9000);
    d.start_record(11);
    assert_eq!(d.pre_txs, 100);
    let r = d.report(11, 500, 9000, 4_000_000_000);
    assert_eq!(r.tps, 100);
    assert_eq!(r.delta_gas, 8000);
    assert_eq!(r.block_number, 11);
    assert_eq!(d.pre_txs, 500);
    d.stop_record(12);
    assert_eq!(d.pre_gas, 9000);
    let _ = d.elapsed_ns();
}

#[test]
fn node_tps_displayer() {
    let mut d = NodeTps::default();
    assert!(!d.update_tps_and_gas(999, 3, 30));
    assert!(d.update_tps_and_gas(1000, 7, 70));
    assert_eq!(d.delta_txs, 10);
    let r = d.report(1_000_000_000);
    assert_eq!(r.tps, 10);
    assert_eq!(r.delta_gas, 100);
    assert_eq!(d.delta_txs, 0);
    d.update_tps_and_gas(1, 1, 1);
    d.start_record();
    assert_eq!(d.delta_gas, 0);
    let _ = d.elapsed_ns();
}

#[test]
fn write_to_db_breakdown_figures() {
    let mut w = WriteToDbRecord::default();
    w.revert_storage_size = 1;
    w.revert_account_size = 2;
    w.write_receipts_size = 3;
    w.state_account_size = 4;
    w.state_bytecode_size = 5;
    w.state_storage_size = 6;
    w.revert_storage_time = 10;
    w.revert_storage_append_time = 4;
    w.state_storage_time = 9;
    w.state_storage_upsert_time = 9;
    let b = write_to_db_breakdown(&w);
    assert_eq!(b.total_size, 21);
    assert_eq!(b.revert_storage_iter_time, 6);
    assert_eq!(b.state_storage_iter_time, 0);
    assert_eq!(b.write_receipts_iter_time, 0);
}

#[test]
fn db_speed_displayers() {
    let mut r = DatabaseOperationRecord::default();
    r.header_td_record(10, Duration::from_nanos(5));
    let mut d = DBSpeedDisplayer::new(DatabaseOperationRecord::default());
    d.update_db_speed_record(r);
    assert_eq!(d.record.header_td_info().0, 10);
    let mut n = NodeDbSpeed::new();
    let mut s = DbSpeedRecord::default();
    s.add_read_header_td_db_size(7);
    n.update_db_speed_record(s);
    n.update_db_speed_record(s);
    assert_eq!(n.db_speed_record.read_header_td_db_size, 14);
}

#[test]
fn opcode_table_entries() {
    let add = opcode_info(0x01).unwrap();
    assert_eq!(add.category, OpcodeCategory::Arithmetic);
    assert_eq!(add.gas, 3);
    assert!(add.static_gas);
    assert_eq!(category_name(0x01), Some("arithmetic"));
    assert_eq!(category_name(0x50), Some("stack::pop"));
    assert_eq!(category_name(0x0c), None);
    assert_eq!(category(0xff), Some(OpcodeCategory::Host));
    assert_eq!(static_gas(0xf5), Some(32000));
    assert_eq!(static_gas(0x0d), None);
    assert_eq!(OpcodeCategory::HostEnv.name(), "host_env");
}

#[test]
fn opcode_gas_parts() {
    assert_eq!(gas_parts(0x01, 10, 999), (30, 3, 0));
    assert_eq!(gas_parts(0x0a, 2, 100), (100, 10, 80));
    assert_eq!(gas_parts(0x0a, 20, 100), (100, 10, 0));
    assert_eq!(gas_parts(0x0c, 5, 100), (0, 0, 0));
    assert_eq!(gas_parts(0x01, u64::MAX, 7), (0, 3, 0));
}

#[test]
fn opcode_totals_by_category() {
    let mut recs = vec![(0u64, 0u64, 0i128); 256];
    recs[0x01] = (2, 20, 6);
    recs[0x02] = (3, 30, 15);
    recs[0x0c] = (4, 40, 0);
    recs[0x50] = (5, 50, 10);
    let t = opcode_totals(&recs);
    assert_eq!(t.count, 14);
    assert_eq!(t.time, 140);
    assert_eq!(t.buckets.len(), CATEGORY_BUCKETS);
    assert_eq!(t.buckets[OpcodeCategory::Arithmetic.index()], (5, 50));
    assert_eq!(t.buckets[OpcodeCategory::StackPop.index()], (5, 50));
    assert_eq!(t.buckets[CATEGORY_BUCKETS - 1], (4, 40));
    assert_eq!(t.buckets[OpcodeCategory::Host.index()], (0, 0));
    let count: u64 = t.buckets.iter().map(|b| b.0).sum();
    let time: u64 = t.buckets.iter().map(|b| b.1).sum();
    assert_eq!((count, time), (t.count, t.time));
}
