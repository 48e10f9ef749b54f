use perf_metrics::speed::DatabaseOperationRecord;
use perf_metrics::time::{CycleInstant, Duration, MAX_DURATION_NANOS};
use perf_metrics::time_distribution::{TimeDistributionStats, MAX_ARRAY_SIZE, NS_SPAN_SIZE, US_SPAN_SIZE};
use perf_metrics::tps_gas::TpsGasRecord;

#[test]
fn durations() {
    let d = Duration::new(2, 1_500_000_000);
    assert_eq!(d.as_nanos(), 3_500_000_000);
    assert_eq!(d.as_secs(), 3);
    assert_eq!(d.subsec_nanos(), 500_000_000);
    assert_eq!(Duration::zero().as_nanos(), 0);
    let max = Duration::new(u64::MAX, 999_999_999);
    assert_eq!(max.as_nanos(), MAX_DURATION_NANOS);
    assert!(max.checked_add(Duration::from_nanos(1)).is_none());
    assert_eq!(d.checked_add(Duration::from_nanos(1)).unwrap().as_nanos(), 3_500_000_001);
    assert!(Duration::from_nanos(1).checked_sub(d).is_none());
    assert_eq!(d.checked_sub(Duration::from_nanos(500)).unwrap().as_nanos(), 3_499_999_500);
}

#[test]
fn cycle_instants() {
    let a = CycleInstant::from_cycles(10);
    let b = CycleInstant::from_cycles(25);
    assert_eq!(b.checked_cycles_since(a), Some(15));
    assert_eq!(a.checked_cycles_since(b), None);
    assert_eq!(a.cycles_since_or_zero(b), 0);
    assert_eq!(CycleInstant::default().cycles, 0);
}

#[test]
fn database_operation_record() {
    let mut r = DatabaseOperationRecord::default();
    r.header_td_record(3, Duration::from_nanos(10));
    r.header_td_record(4, Duration::from_nanos(20));
    r.block_with_senders_record(100, Duration::from_nanos(7));
    r.write_to_db_record(9, Duration::from_nanos(1));
    let (s, t) = r.header_td_info();
    assert_eq!((s, t.as_nanos()), (7, 30));
    let (s, t) = r.block_with_senders_info();
    assert_eq!((s, t.as_nanos()), (100, 7));
    let (s, t) = r.write_to_db_info();
    assert_eq!((s, t.as_nanos()), (9, 1));
}

#[test]
fn tps_gas_record_accumulates() {
    let mut r = TpsGasRecord::default();
    r.record(5, 10, 100);
    r.record(6, 1, 1);
    assert_eq!((r.block_number(), r.txs(), r.gas()), (6, 11, 101));
}

#[test]
fn time_distribution_update_and_record() {
    let mut a = TimeDistributionStats::default();
    assert_eq!((a.span_in_us, a.span_in_ns), (US_SPAN_SIZE, NS_SPAN_SIZE));
    a.record_buckets(3, Some(30));
    a.record_buckets(500, None);
    assert_eq!(a.total_count, 2);
    assert_eq!(a.us_percentile[3], 1);
    assert_eq!(a.us_percentile[US_SPAN_SIZE - 1], 1);
    assert_eq!(a.ns_percentile[30], 1);
    let mut b = TimeDistributionStats::new(US_SPAN_SIZE, NS_SPAN_SIZE);
    b.record_buckets(3, None);
    b.update(&a);
    assert_eq!(b.total_count, 3);
    assert_eq!(b.us_percentile[3], 2);
    assert_eq!(b.ns_percentile[30], 1);
    let sum: u64 = b.us_percentile.iter().sum();
    assert_eq!(sum, b.total_count);
    assert_eq!(MAX_ARRAY_SIZE, 200);
}

#[test]
fn mpt_record_counts_branch_updates() {
    let mut r = perf_metrics::state_root::MPTRecord::default();
    r.add_updates(2, 5);
    r.add_updates(1, 0);
    assert_eq!((r.delete_branch_number, r.update_branch_number), (3, 5));
}

#[test]
fn nanosecond_buckets_stay_within_count() {
    let mut a = TimeDistributionStats::new(10, 4);
    a.record_buckets(2, Some(3));
    a.record_buckets(50, None);
    let mut b = TimeDistributionStats::new(10, 4);
    b.record_buckets(0, Some(0));
    a.update(&b);
    let ns: u64 = a.ns_percentile.iter().sum();
    let us: u64 = a.us_percentile.iter().sum();
    assert_eq!(us, a.total_count);
    assert!(ns <= a.total_count);
    assert_eq!(a.us_percentile[9], 1);
    assert!(a.us_percentile[10..].iter().all(|x| *x == 0));
}
