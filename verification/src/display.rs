//! The decisions of the dashboard: when a report is due, transactions per
//! second over a measured interval, and the derived figures of the
//! write_to_db and database-speed reports.
use vstd::prelude::*;

use crate::speed::DatabaseOperationRecord;
use crate::stage_metrics::{elapsed_nanos, instant_now};
use crate::write_to_db::WriteToDbRecord;

verus! {

/// Blocks between two reports.
pub const PRINT_INTERVAL: u64 = 1000;

/// Nanoseconds in one second.
pub const NANOS_PER_SECOND: u128 = 1_000_000_000u128;

/// Whether a report is due at `block_number`, and the block of the last
/// report afterwards. A last report at block 0 counts as none, and the
/// first block seen takes its place. A report is due when at least
/// `PRINT_INTERVAL` blocks have passed since the last one, or at a multiple
/// of `PRINT_INTERVAL`; it then becomes the last report.
pub open spec fn print_step(last_print_block_number: u64, block_number: u64) -> (bool, u64) {
    let base = if last_print_block_number == 0 { block_number } else { last_print_block_number };
    let due = block_number - base >= PRINT_INTERVAL || block_number % PRINT_INTERVAL == 0;
    (due, if due { block_number } else { base })
}

/// Decides whether a report is due at `block_number`, given the block of
/// the last report; returns the decision and the new last report's block.
pub fn next_print(last_print_block_number: u64, block_number: u64) -> (r: (bool, u64))
    requires
        last_print_block_number <= block_number || last_print_block_number == 0,
    ensures
        r == print_step(last_print_block_number, block_number),
{
    let base = if last_print_block_number == 0 { block_number } else { last_print_block_number };
    let interval = block_number - base;
    let due = interval >= PRINT_INTERVAL || block_number % PRINT_INTERVAL == 0;
    (due, if due { block_number } else { base })
}

/// Transactions per second: `delta_txs` transactions over `elapsed_ns`
/// nanoseconds, rounded down.
pub open spec fn tps_of(delta_txs: u128, elapsed_ns: u128) -> int {
    (delta_txs * NANOS_PER_SECOND) / elapsed_ns as int
}

/// Transactions per second of `delta_txs` transactions over `elapsed_ns`
/// nanoseconds, rounded down.
pub fn tps(delta_txs: u128, elapsed_ns: u128) -> (r: u128)
    requires
        elapsed_ns > 0,
        delta_txs * NANOS_PER_SECOND <= u128::MAX,
    ensures
        r == tps_of(delta_txs, elapsed_ns),
{
    (delta_txs * NANOS_PER_SECOND) / elapsed_ns
}

/// What a report of transactions and gas shows: the block, the time
/// measured, transactions per second, and the gas used in that time.
#[derive(Clone, Copy, Debug)]
pub struct TpsReport {
    pub block_number: u64,
    pub elapsed_ns: u128,
    pub tps: u128,
    pub delta_gas: u128,
}

/// The running totals of transactions and gas, and the totals and clock at
/// the start of the measured interval.
#[derive(Debug)]
pub struct TpsAndGasRecordDisplayer {
    pub pre_txs: u128,
    pub pre_gas: u128,
    pub last_txs: u128,
    pub last_gas: u128,
    pub pre_instant: minstant::Instant,
    pub timer_switch: bool,
    pub last_print_block_number: u64,
}

/// The totals of `d`, apart from its clock.
pub open spec fn tps_totals(d: &TpsAndGasRecordDisplayer) -> (u128, u128, u128, u128, bool, u64) {
    (d.pre_txs, d.pre_gas, d.last_txs, d.last_gas, d.timer_switch, d.last_print_block_number)
}

impl Default for TpsAndGasRecordDisplayer {
    fn default() -> (r: Self)
        ensures
            tps_totals(&r) == (0u128, 0u128, 0u128, 0u128, false, 0u64),
    {
        TpsAndGasRecordDisplayer {
            pre_txs: 0,
            pre_gas: 0,
            last_txs: 0,
            last_gas: 0,
            pre_instant: instant_now(),
            timer_switch: false,
            last_print_block_number: 0,
        }
    }
}

impl TpsAndGasRecordDisplayer {
    /// Takes the running totals `txs` and `gas` at `block_number`; returns
    /// whether a report is due (see `print_step`).
    pub fn update_tps_and_gas(&mut self, block_number: u64, txs: u128, gas: u128) -> (due: bool)
        requires
            old(self).last_print_block_number <= block_number || old(self).last_print_block_number == 0,
        ensures
            (due, final(self).last_print_block_number) == print_step(old(self).last_print_block_number, block_number),
            final(self).last_txs == txs,
            final(self).last_gas == gas,
            final(self).pre_txs == old(self).pre_txs,
            final(self).pre_gas == old(self).pre_gas,
            final(self).timer_switch == old(self).timer_switch,
            final(self).pre_instant == old(self).pre_instant,
    {
        let (due, last) = next_print(self.last_print_block_number, block_number);
        self.last_print_block_number = last;
        self.last_txs = txs;
        self.last_gas = gas;
        due
    }

    /// Nanoseconds since the measured interval started, read off the
    /// clock; which value comes back depends on the time and is not claimed.
    pub fn elapsed_ns(&self) -> (r: u64) {
        elapsed_nanos(&self.pre_instant)
    }

    /// The report at `block_number` of the totals `txs` and `gas`, over the
    /// interval of `elapsed_ns` nanoseconds that has just ended; the next
    /// interval starts from these totals, now.
    pub fn report(&mut self, block_number: u64, txs: u128, gas: u128, elapsed_ns: u64) -> (r: TpsReport)
        requires
            elapsed_ns > 0,
            old(self).pre_txs <= txs,
            old(self).pre_gas <= gas,
            (txs - old(self).pre_txs) * NANOS_PER_SECOND <= u128::MAX,
        ensures
            r.block_number == block_number,
            r.elapsed_ns == elapsed_ns,
            r.tps == tps_of((txs - old(self).pre_txs) as u128, elapsed_ns as u128),
            r.delta_gas == gas - old(self).pre_gas,
            final(self).pre_txs == txs,
            final(self).pre_gas == gas,
            final(self).last_txs == old(self).last_txs,
            final(self).last_gas == old(self).last_gas,
            final(self).timer_switch == old(self).timer_switch,
            final(self).last_print_block_number == old(self).last_print_block_number,
    {
        let delta_txs = txs - self.pre_txs;
        let delta_gas = gas - self.pre_gas;
        let elapsed: u128 = elapsed_ns as u128;
        let tps = tps(delta_txs, elapsed);
        self.pre_txs = txs;
        self.pre_gas = gas;
        self.pre_instant = instant_now();
        TpsReport { block_number, elapsed_ns: elapsed, tps, delta_gas }
    }

    /// Starts the measured interval from the last totals, now, unless one is
    /// already running.
    pub fn start_record(&mut self, _block_number: u64)
        ensures
            !old(self).timer_switch ==> final(self).pre_txs == old(self).last_txs
                && final(self).pre_gas == old(self).last_gas && final(self).timer_switch,
            old(self).timer_switch ==> tps_totals(final(self)) == tps_totals(old(self))
                && final(self).pre_instant == old(self).pre_instant,
            final(self).last_txs == old(self).last_txs,
            final(self).last_gas == old(self).last_gas,
            final(self).last_print_block_number == old(self).last_print_block_number,
    {
        if !self.timer_switch {
            self.pre_txs = self.last_txs;
            self.pre_gas = self.last_gas;
            self.pre_instant = instant_now();
            self.timer_switch = true;
        }
    }

    /// Stopping does nothing: the interval runs on until the next report.
    pub fn stop_record(&mut self, _block_number: u64)
        ensures
            tps_totals(final(self)) == tps_totals(old(self)),
            final(self).pre_instant == old(self).pre_instant,
    {
    }
}

/// The time of a write step spent outside its appends or upserts.
pub open spec fn iter_time(step_time: u64, append_time: u64) -> u64 {
    (step_time - append_time) as u64
}

/// The figures of the write_to_db report that are not read off the record:
/// the bytes written in all, and the time of each step spent iterating
/// rather than appending or upserting.
#[derive(Clone, Copy, Debug)]
pub struct WriteToDbBreakdown {
    pub total_size: usize,
    pub revert_storage_iter_time: u64,
    pub revert_account_iter_time: u64,
    pub write_receipts_iter_time: u64,
    pub state_account_iter_time: u64,
    pub state_bytecode_iter_time: u64,
    pub state_storage_iter_time: u64,
}

/// The bytes written by all steps of `r`.
pub open spec fn total_write_size(r: WriteToDbRecord) -> int {
    r.revert_storage_size + r.revert_account_size + r.write_receipts_size + r.state_account_size
        + r.state_bytecode_size + r.state_storage_size
}

/// What the report needs of a record: the bytes sum fits, and no step's
/// appends or upserts took longer than the step.
pub open spec fn breakdown_ok(r: WriteToDbRecord) -> bool {
    &&& total_write_size(r) <= usize::MAX
    &&& r.revert_storage_append_time <= r.revert_storage_time
    &&& r.revert_account_append_time <= r.revert_account_time
    &&& r.receipts_append_time <= r.write_receipts_time
    &&& r.state_account_upsert_time <= r.state_account_time
    &&& r.state_bytecode_upsert_time <= r.state_bytecode_time
    &&& r.state_storage_upsert_time <= r.state_storage_time
}

/// The derived figures of the write_to_db report of `r`.
pub fn write_to_db_breakdown(r: &WriteToDbRecord) -> (b: WriteToDbBreakdown)
    requires
        breakdown_ok(*r),
    ensures
        b.total_size == total_write_size(*r),
        b.revert_storage_iter_time == iter_time(r.revert_storage_time, r.revert_storage_append_time),
        b.revert_account_iter_time == iter_time(r.revert_account_time, r.revert_account_append_time),
        b.write_receipts_iter_time == iter_time(r.write_receipts_time, r.receipts_append_time),
        b.state_account_iter_time == iter_time(r.state_account_time, r.state_account_upsert_time),
        b.state_bytecode_iter_time == iter_time(r.state_bytecode_time, r.state_bytecode_upsert_time),
        b.state_storage_iter_time == iter_time(r.state_storage_time, r.state_storage_upsert_time),
{
    WriteToDbBreakdown {
        total_size: r.revert_storage_size + r.revert_account_size + r.write_receipts_size
            + r.state_account_size + r.state_bytecode_size + r.state_storage_size,
        revert_storage_iter_time: r.revert_storage_time - r.revert_storage_append_time,
        revert_account_iter_time: r.revert_account_time - r.revert_account_append_time,
        write_receipts_iter_time: r.write_receipts_time - r.receipts_append_time,
        state_account_iter_time: r.state_account_time - r.state_account_upsert_time,
        state_bytecode_iter_time: r.state_bytecode_time - r.state_bytecode_upsert_time,
        state_storage_iter_time: r.state_storage_time - r.state_storage_upsert_time,
    }
}

/// Holds the latest database-speed record for the report.
#[derive(Clone, Copy, Debug)]
pub struct DBSpeedDisplayer {
    pub record: DatabaseOperationRecord,
}

impl DBSpeedDisplayer {
    /// A displayer holding `record`.
    pub fn new(record: DatabaseOperationRecord) -> (r: Self)
        ensures
            r.record == record,
    {
        DBSpeedDisplayer { record }
    }

    /// Replaces the record with `record`.
    pub fn update_db_speed_record(&mut self, record: DatabaseOperationRecord)
        ensures
            final(self).record == record,
    {
        self.record = record;
    }
}


/// A report comes at least every `PRINT_INTERVAL` blocks: once that many
/// blocks have passed since the last report, the next block is due.
pub proof fn lemma_report_within_interval(last_print_block_number: u64, block_number: u64)
    requires
        last_print_block_number != 0,
        last_print_block_number <= block_number,
        block_number - last_print_block_number >= PRINT_INTERVAL,
    ensures
        print_step(last_print_block_number, block_number) == (true, block_number),
{
}

/// Between reports the last report's block stays, so the schedule only
/// moves forward: after any step the last report is no later than the
/// block seen.
pub proof fn lemma_schedule_moves_forward(last_print_block_number: u64, block_number: u64)
    requires
        last_print_block_number <= block_number,
    ensures
        last_print_block_number <= print_step(last_print_block_number, block_number).1 <= block_number,
{
}

/// The write_to_db report adds up: the bytes in all are the bytes of the
/// six steps, and each step's time is its iterating time plus its appends
/// or upserts.
pub proof fn lemma_write_breakdown_adds_up(r: WriteToDbRecord)
    requires
        breakdown_ok(r),
    ensures
        total_write_size(r) == r.revert_storage_size + r.revert_account_size + r.write_receipts_size
            + r.state_account_size + r.state_bytecode_size + r.state_storage_size,
        iter_time(r.revert_storage_time, r.revert_storage_append_time) + r.revert_storage_append_time == r.revert_storage_time,
        iter_time(r.revert_account_time, r.revert_account_append_time) + r.revert_account_append_time == r.revert_account_time,
        iter_time(r.write_receipts_time, r.receipts_append_time) + r.receipts_append_time == r.write_receipts_time,
        iter_time(r.state_account_time, r.state_account_upsert_time) + r.state_account_upsert_time == r.state_account_time,
        iter_time(r.state_bytecode_time, r.state_bytecode_upsert_time) + r.state_bytecode_upsert_time == r.state_bytecode_time,
        iter_time(r.state_storage_time, r.state_storage_upsert_time) + r.state_storage_upsert_time == r.state_storage_time,
{
}

/// Transactions per second are the whole number of transactions per
/// second over the interval: `tps * elapsed <= delta * 10^9 <
/// (tps + 1) * elapsed`.
pub proof fn lemma_tps_rounds_down(delta_txs: u128, elapsed_ns: u128)
    requires
        elapsed_ns > 0,
    ensures
        tps_of(delta_txs, elapsed_ns) * elapsed_ns <= delta_txs * NANOS_PER_SECOND,
        delta_txs * NANOS_PER_SECOND < (tps_of(delta_txs, elapsed_ns) + 1) * elapsed_ns,
{
    let n = delta_txs * NANOS_PER_SECOND;
    let e = elapsed_ns as int;
    vstd::arithmetic::div_mod::lemma_fundamental_div_mod(n, e);
    assert(0 <= n % e < e) by {
        vstd::arithmetic::div_mod::lemma_mod_bound(n, e);
    }
    assert((n / e + 1) * e == (n / e) * e + e) by (nonlinear_arith);
    assert((n / e) * e == e * (n / e)) by (nonlinear_arith);
}

/// A report is due exactly when the interval has run its length since the
/// last report (counted from the first block seen) or the block is a
/// multiple of the interval; a report moves the last report to the block,
/// else it stays.
pub proof fn lemma_print_step(last_print_block_number: u64, block_number: u64)
    requires
        last_print_block_number <= block_number || last_print_block_number == 0,
    ensures
        ({
            let base = if last_print_block_number == 0 { block_number } else { last_print_block_number };
            let (due, last) = print_step(last_print_block_number, block_number);
            &&& due == (block_number - base >= PRINT_INTERVAL || block_number % PRINT_INTERVAL == 0)
            &&& last == (if due { block_number } else { base })
            &&& (last_print_block_number == 0 && block_number % PRINT_INTERVAL != 0) ==> !due
        }),
{
}

} // verus!
