//! The metric recorder of the execution stage: what each measuring point
//! records, and the events that go to the dashboard. The caller reads the
//! clock and passes the reading in; where a point reports to the dashboard,
//! the event to send is returned.
use vstd::prelude::*;

use crate::execute_tx::{phase_ended, ExecuteTxsRecord};
use crate::execution_duration::ExecutionDurationRecord;
use crate::state_root::StateRootRecord;
use crate::time::{CycleInstant, cycles_since_or_zero};
use crate::tps_gas::{TpsAndGasMessage, TpsGasRecord};
use crate::write_to_db::WriteToDbRecord;

verus! {

/// An event for the dashboard.
#[derive(Clone, Copy, Debug)]
pub enum MetricEvent {
    /// Duration record of execute_inner.
    ExecutionStageTime {
        /// Current block number.
        block_number: u64,
        /// Execution duration record.
        record: ExecutionDurationRecord,
    },
    /// Transactions and gas of a block.
    BlockTpsAndGas {
        /// Current block number.
        block_number: u64,
        /// TPS and gas message.
        record: TpsAndGasMessage,
    },
}

/// Everything measured during a run of the execution stage.
#[derive(Clone, Copy, Debug)]
pub struct PerfMetric {
    /// Time of each part of execute_inner.
    pub duration_record: ExecutionDurationRecord,
    /// Time of each step of executing transactions.
    pub execute_tx_record: ExecuteTxsRecord,
    /// Time and size of each step of write_to_db.
    pub write_to_db_record: WriteToDbRecord,
    /// Transactions and gas.
    pub tps_gas_record: TpsGasRecord,
    /// Measurements of the state-root update.
    pub state_root_record: StateRootRecord,
    /// Whether the first block of the state-root measurement is set.
    pub state_root_start_set: bool,
    /// The current block number.
    pub block_number: u64,
}

impl Default for PerfMetric {
    fn default() -> (r: Self)
        ensures
            r.duration_record.total == 0 && r.duration_record.fetch_block == 0,
            r.duration_record.execution == 0 && r.duration_record.take_output_state == 0,
            r.duration_record.write_to_db == 0,
            r.execute_tx_record.total == 0 && r.write_to_db_record.total == 0,
            r.tps_gas_record.txs == 0 && r.tps_gas_record.gas == 0,
            r.tps_gas_record.block_number == 0,
            r.state_root_record.start_block_number == 0,
            r.state_root_record.end_block_number == 0,
            !r.state_root_start_set,
            r.block_number == 0,
    {
        PerfMetric {
            duration_record: ExecutionDurationRecord::default(),
            execute_tx_record: ExecuteTxsRecord::default(),
            write_to_db_record: WriteToDbRecord::default(),
            tps_gas_record: TpsGasRecord::default(),
            state_root_record: StateRootRecord::new(),
            state_root_start_set: false,
            block_number: 0,
        }
    }
}

/// The event telling the dashboard to start (`on`) or stop counting
/// transactions and gas, at the current block.
pub open spec fn switch_event(metric: PerfMetric, on: bool) -> MetricEvent {
    MetricEvent::BlockTpsAndGas { block_number: metric.block_number, record: TpsAndGasMessage::Switch(on) }
}

/// Starts the total time of execute_inner at `now`.
pub fn start_record(metric: &mut PerfMetric, now: CycleInstant)
    ensures
        *final(metric) == (PerfMetric {
            duration_record: ExecutionDurationRecord { total_recorder: now, ..old(metric).duration_record },
            ..*old(metric)
        }),
{
    metric.duration_record.start_total_record(now);
}

/// Before the block loop: the event that starts counting transactions and gas.
pub fn record_before_loop(metric: &PerfMetric) -> (e: MetricEvent)
    ensures
        e == switch_event(*metric, true),
{
    MetricEvent::BlockTpsAndGas { block_number: metric.block_number, record: TpsAndGasMessage::Switch(true) }
}

/// Before reading the block's total difficulty: starts the part's time at
/// `now` and makes `block_number` the current block.
pub fn record_before_td(metric: &mut PerfMetric, now: CycleInstant, block_number: u64)
    ensures
        *final(metric) == (PerfMetric {
            duration_record: ExecutionDurationRecord { time_recorder: now, ..old(metric).duration_record },
            block_number,
            ..*old(metric)
        }),
{
    metric.duration_record.start_time_record(now);
    metric.block_number = block_number;
}

/// The fetch time after a part of block fetching that ends at `now`.
pub open spec fn fetched(d: ExecutionDurationRecord, now: CycleInstant) -> u64 {
    (d.fetch_block + (now.cycles - d.time_recorder.cycles)) as u64
}

/// What ending a fetching part at `now` needs: the clock has not gone back
/// and the sum fits.
pub open spec fn fetch_ok(d: ExecutionDurationRecord, now: CycleInstant) -> bool {
    &&& now.cycles >= d.time_recorder.cycles
    &&& d.fetch_block + (now.cycles - d.time_recorder.cycles) <= u64::MAX
}

/// After reading the block's total difficulty at `now`: adds the part's
/// time to the fetch time and starts the next part.
pub fn record_after_td(metric: &mut PerfMetric, now: CycleInstant)
    requires
        fetch_ok(old(metric).duration_record, now),
    ensures
        *final(metric) == (PerfMetric {
            duration_record: ExecutionDurationRecord {
                fetch_block: fetched(old(metric).duration_record, now),
                time_recorder: now,
                ..old(metric).duration_record
            },
            ..*old(metric)
        }),
{
    metric.duration_record.add_fetch_block_duration(now);
    metric.duration_record.start_time_record(now);
}

/// After reading the block with senders at `now`: adds the part's time to
/// the fetch time and starts the next part.
pub fn record_after_block_with_senders(metric: &mut PerfMetric, now: CycleInstant)
    requires
        fetch_ok(old(metric).duration_record, now),
    ensures
        *final(metric) == (PerfMetric {
            duration_record: ExecutionDurationRecord {
                fetch_block: fetched(old(metric).duration_record, now),
                time_recorder: now,
                ..old(metric).duration_record
            },
            ..*old(metric)
        }),
{
    metric.duration_record.add_fetch_block_duration(now);
    metric.duration_record.start_time_record(now);
}

/// After a block is executed: records its transactions and gas, and returns
/// the running totals as the event, at the current block.
pub fn record_after_get_tps(metric: &mut PerfMetric, block_number: u64, txs: u64, gas: u64) -> (e: MetricEvent)
    requires
        old(metric).tps_gas_record.txs + txs <= u128::MAX,
        old(metric).tps_gas_record.gas + gas <= u128::MAX,
    ensures
        final(metric).tps_gas_record == (TpsGasRecord {
            block_number,
            txs: (old(metric).tps_gas_record.txs + txs) as u128,
            gas: (old(metric).tps_gas_record.gas + gas) as u128,
        }),
        *final(metric) == (PerfMetric { tps_gas_record: final(metric).tps_gas_record, ..*old(metric) }),
        e == (MetricEvent::BlockTpsAndGas {
            block_number: old(metric).block_number,
            record: TpsAndGasMessage::Record(final(metric).tps_gas_record),
        }),
{
    metric.tps_gas_record.record(block_number, txs as u128, gas as u128);
    MetricEvent::BlockTpsAndGas {
        block_number: metric.block_number,
        record: TpsAndGasMessage::Record(metric.tps_gas_record),
    }
}

/// After the output state is taken: starts the next part at `now` and
/// returns the event that stops counting transactions and gas.
pub fn record_after_take_output_state(metric: &mut PerfMetric, now: CycleInstant) -> (e: MetricEvent)
    ensures
        e == switch_event(*old(metric), false),
        *final(metric) == (PerfMetric {
            duration_record: ExecutionDurationRecord { time_recorder: now, ..old(metric).duration_record },
            ..*old(metric)
        }),
{
    let e = MetricEvent::BlockTpsAndGas {
        block_number: metric.block_number,
        record: TpsAndGasMessage::Switch(false),
    };
    metric.duration_record.start_time_record(now);
    e
}

/// At the end of execute_inner, at `now`: adds the total time and returns
/// the duration record as the event, at the current block.
pub fn record_at_end(metric: &mut PerfMetric, now: CycleInstant) -> (e: MetricEvent)
    requires
        now.cycles >= old(metric).duration_record.total_recorder.cycles,
        old(metric).duration_record.total + (now.cycles - old(metric).duration_record.total_recorder.cycles)
            <= u64::MAX,
    ensures
        *final(metric) == (PerfMetric {
            duration_record: ExecutionDurationRecord {
                total: (old(metric).duration_record.total + (now.cycles
                    - old(metric).duration_record.total_recorder.cycles)) as u64,
                ..old(metric).duration_record
            },
            ..*old(metric)
        }),
        e == (MetricEvent::ExecutionStageTime {
            block_number: old(metric).block_number,
            record: final(metric).duration_record,
        }),
{
    metric.duration_record.add_total_duration(now);
    MetricEvent::ExecutionStageTime { block_number: metric.block_number, record: metric.duration_record }
}

/// Start execute_tx record.
pub fn start_execute_tx_record(metric: &mut PerfMetric, now: CycleInstant)
    ensures
        *final(metric) == (PerfMetric {
            execute_tx_record: ExecuteTxsRecord { start_record: now, ..old(metric).execute_tx_record },
            ..*old(metric)
        }),
{
    metric.execute_tx_record.start_record(now);
}

/// Start execute_tx sub record.
pub fn start_execute_tx_sub_record(metric: &mut PerfMetric, now: CycleInstant)
    ensures
        *final(metric) == (PerfMetric {
            execute_tx_record: ExecuteTxsRecord { sub_record: now, ..old(metric).execute_tx_record },
            ..*old(metric)
        }),
{
    metric.execute_tx_record.start_sub_record(now);
}

/// Adds the time of transact, the sub-step ending at `now`.
pub fn transact_record(metric: &mut PerfMetric, now: CycleInstant)
    requires
        old(metric).execute_tx_record.transact + old(metric).execute_tx_record.step(now) <= u64::MAX,
    ensures
        final(metric).execute_tx_record == phase_ended(old(metric).execute_tx_record, 0, now),
        *final(metric) == (PerfMetric {
            execute_tx_record: ExecuteTxsRecord {
                transact: (old(metric).execute_tx_record.transact + old(metric).execute_tx_record.step(now)) as u64,
                sub_record: now,
                ..old(metric).execute_tx_record
            },
            ..*old(metric)
        }),
{
    metric.execute_tx_record.transact_record(now);
}

/// Adds the time of commit changes, the sub-step ending at `now`.
pub fn commit_changes_record(metric: &mut PerfMetric, now: CycleInstant)
    requires
        old(metric).execute_tx_record.commit_changes + old(metric).execute_tx_record.step(now) <= u64::MAX,
    ensures
        final(metric).execute_tx_record == phase_ended(old(metric).execute_tx_record, 1, now),
        *final(metric) == (PerfMetric {
            execute_tx_record: ExecuteTxsRecord {
                commit_changes: (old(metric).execute_tx_record.commit_changes + old(metric).execute_tx_record.step(now)) as u64,
                sub_record: now,
                ..old(metric).execute_tx_record
            },
            ..*old(metric)
        }),
{
    metric.execute_tx_record.commit_changes_record(now);
}

/// Adds the time of add receipt, the sub-step ending at `now`.
pub fn add_receipt_record(metric: &mut PerfMetric, now: CycleInstant)
    requires
        old(metric).execute_tx_record.add_receipt + old(metric).execute_tx_record.step(now) <= u64::MAX,
    ensures
        final(metric).execute_tx_record == phase_ended(old(metric).execute_tx_record, 2, now),
        *final(metric) == (PerfMetric {
            execute_tx_record: ExecuteTxsRecord {
                add_receipt: (old(metric).execute_tx_record.add_receipt + old(metric).execute_tx_record.step(now)) as u64,
                sub_record: now,
                ..old(metric).execute_tx_record
            },
            ..*old(metric)
        }),
{
    metric.execute_tx_record.add_receipt_record(now);
}

/// Adds the time of apply post execution state change, the sub-step ending at `now`.
pub fn apply_post_execution_state_change_record(metric: &mut PerfMetric, now: CycleInstant)
    requires
        old(metric).execute_tx_record.apply_post_execution_state_change + old(metric).execute_tx_record.step(now) <= u64::MAX,
    ensures
        final(metric).execute_tx_record == phase_ended(old(metric).execute_tx_record, 3, now),
        *final(metric) == (PerfMetric {
            execute_tx_record: ExecuteTxsRecord {
                apply_post_execution_state_change: (old(metric).execute_tx_record.apply_post_execution_state_change + old(metric).execute_tx_record.step(now)) as u64,
                sub_record: now,
                ..old(metric).execute_tx_record
            },
            ..*old(metric)
        }),
{
    metric.execute_tx_record.apply_post_execution_state_change_record(now);
}

/// Adds the time of merge transactions, the sub-step ending at `now`.
pub fn merge_transactions_record(metric: &mut PerfMetric, now: CycleInstant)
    requires
        old(metric).execute_tx_record.merge_transactions + old(metric).execute_tx_record.step(now) <= u64::MAX,
    ensures
        final(metric).execute_tx_record == phase_ended(old(metric).execute_tx_record, 4, now),
        *final(metric) == (PerfMetric {
            execute_tx_record: ExecuteTxsRecord {
                merge_transactions: (old(metric).execute_tx_record.merge_transactions + old(metric).execute_tx_record.step(now)) as u64,
                sub_record: now,
                ..old(metric).execute_tx_record
            },
            ..*old(metric)
        }),
{
    metric.execute_tx_record.merge_transactions_record(now);
}

/// Adds the time of verify receipt, the sub-step ending at `now`.
pub fn verify_receipt_record(metric: &mut PerfMetric, now: CycleInstant)
    requires
        old(metric).execute_tx_record.verify_receipt + old(metric).execute_tx_record.step(now) <= u64::MAX,
    ensures
        final(metric).execute_tx_record == phase_ended(old(metric).execute_tx_record, 5, now),
        *final(metric) == (PerfMetric {
            execute_tx_record: ExecuteTxsRecord {
                verify_receipt: (old(metric).execute_tx_record.verify_receipt + old(metric).execute_tx_record.step(now)) as u64,
                sub_record: now,
                ..old(metric).execute_tx_record
            },
            ..*old(metric)
        }),
{
    metric.execute_tx_record.verify_receipt_record(now);
}

/// What saving the receipts at `now` needs: both sums fit.
pub open spec fn save_receipts_ok(r: ExecuteTxsRecord, now: CycleInstant) -> bool {
    &&& r.save_receipts + r.step(now) <= u64::MAX
    &&& r.total + cycles_since_or_zero(now, r.start_record) <= u64::MAX
}

/// The record after saving the receipts at `now`, the last sub-step: its
/// time is added, and so is the total time since `start_record`.
pub open spec fn receipts_saved(r: ExecuteTxsRecord, now: CycleInstant) -> ExecuteTxsRecord {
    ExecuteTxsRecord {
        save_receipts: (r.save_receipts + r.step(now)) as u64,
        total: (r.total + cycles_since_or_zero(now, r.start_record)) as u64,
        sub_record: now,
        ..r
    }
}

/// Adds the time of saving receipts, the last sub-step, ending at `now`,
/// and the total time of executing the transactions.
pub fn save_receipts_record(metric: &mut PerfMetric, now: CycleInstant)
    requires
        save_receipts_ok(old(metric).execute_tx_record, now),
    ensures
        final(metric).execute_tx_record == phase_ended(old(metric).execute_tx_record, 6, now),
        *final(metric) == (PerfMetric {
            execute_tx_record: receipts_saved(old(metric).execute_tx_record, now),
            ..*old(metric)
        }),
{
    metric.execute_tx_record.save_receipts_record(now);
}

/// The record of executing transactions.
pub fn get_execute_tx_record(metric: &PerfMetric) -> (r: ExecuteTxsRecord)
    ensures
        r == metric.execute_tx_record,
{
    metric.execute_tx_record
}

/// Measures verify_and_save_receipts: creating it ends the verify step,
/// finishing it ends the save step.
pub struct VerifyAndSaveReceiptsRecord;

impl VerifyAndSaveReceiptsRecord {
    /// Adds the time of verifying the receipts, ending at `now`.
    pub fn new(metric: &mut PerfMetric, now: CycleInstant) -> (r: Self)
        requires
            old(metric).execute_tx_record.verify_receipt + old(metric).execute_tx_record.step(now) <= u64::MAX,
        ensures
            final(metric).execute_tx_record == phase_ended(old(metric).execute_tx_record, 5, now),
            *final(metric) == (PerfMetric {
                execute_tx_record: ExecuteTxsRecord {
                    verify_receipt: (old(metric).execute_tx_record.verify_receipt
                        + old(metric).execute_tx_record.step(now)) as u64,
                    sub_record: now,
                    ..old(metric).execute_tx_record
                },
                ..*old(metric)
            }),
    {
        verify_receipt_record(metric, now);
        VerifyAndSaveReceiptsRecord
    }

    /// Adds the time of saving the receipts, ending at `now`.
    pub fn finish(self, metric: &mut PerfMetric, now: CycleInstant)
        requires
            save_receipts_ok(old(metric).execute_tx_record, now),
        ensures
            final(metric).execute_tx_record == phase_ended(old(metric).execute_tx_record, 6, now),
            *final(metric) == (PerfMetric {
                execute_tx_record: receipts_saved(old(metric).execute_tx_record, now),
                ..*old(metric)
            }),
    {
        save_receipts_record(metric, now);
    }
}

/// Start write_to_db record.
pub fn start_write_to_db_record(metric: &mut PerfMetric, now: CycleInstant)
    ensures
        *final(metric) == (PerfMetric {
            write_to_db_record: WriteToDbRecord { start_record: now, ..old(metric).write_to_db_record },
            ..*old(metric)
        }),
{
    metric.write_to_db_record.start_record(now);
}

/// Start write_to_db sub record.
pub fn start_write_to_db_sub_record(metric: &mut PerfMetric, now: CycleInstant)
    ensures
        *final(metric) == (PerfMetric {
            write_to_db_record: WriteToDbRecord { sub_record: now, ..old(metric).write_to_db_record },
            ..*old(metric)
        }),
{
    metric.write_to_db_record.start_sub_record(now);
}

/// Start the time of one single write.
pub fn start_write_to_db_write_record(metric: &mut PerfMetric, now: CycleInstant)
    ensures
        *final(metric) == (PerfMetric {
            write_to_db_record: WriteToDbRecord { write_record: now, ..old(metric).write_to_db_record },
            ..*old(metric)
        }),
{
    metric.write_to_db_record.start_write_record(now);
}

/// Adds `size` bytes to the data written for storage changes in StateReverts.
pub fn record_revert_storage_size(metric: &mut PerfMetric, size: usize)
    requires
        old(metric).write_to_db_record.revert_storage_size + size <= usize::MAX,
    ensures
        *final(metric) == (PerfMetric {
            write_to_db_record: WriteToDbRecord {
                revert_storage_size: (old(metric).write_to_db_record.revert_storage_size + size) as usize,
                ..old(metric).write_to_db_record
            },
            ..*old(metric)
        }),
{
    metric.write_to_db_record.record_revert_storage_size(size);
}

/// Adds `size` bytes to the data written for account changes in StateReverts.
pub fn record_revert_account_size(metric: &mut PerfMetric, size: usize)
    requires
        old(metric).write_to_db_record.revert_account_size + size <= usize::MAX,
    ensures
        *final(metric) == (PerfMetric {
            write_to_db_record: WriteToDbRecord {
                revert_account_size: (old(metric).write_to_db_record.revert_account_size + size) as usize,
                ..old(metric).write_to_db_record
            },
            ..*old(metric)
        }),
{
    metric.write_to_db_record.record_revert_account_size(size);
}

/// Adds `size` bytes to the data written for receipts.
pub fn record_write_receipts_size(metric: &mut PerfMetric, size: usize)
    requires
        old(metric).write_to_db_record.write_receipts_size + size <= usize::MAX,
    ensures
        *final(metric) == (PerfMetric {
            write_to_db_record: WriteToDbRecord {
                write_receipts_size: (old(metric).write_to_db_record.write_receipts_size + size) as usize,
                ..old(metric).write_to_db_record
            },
            ..*old(metric)
        }),
{
    metric.write_to_db_record.record_write_receipts_size(size);
}

/// Adds `size` bytes to the data written for accounts in StateChanges.
pub fn record_state_account_size(metric: &mut PerfMetric, size: usize)
    requires
        old(metric).write_to_db_record.state_account_size + size <= usize::MAX,
    ensures
        *final(metric) == (PerfMetric {
            write_to_db_record: WriteToDbRecord {
                state_account_size: (old(metric).write_to_db_record.state_account_size + size) as usize,
                ..old(metric).write_to_db_record
            },
            ..*old(metric)
        }),
{
    metric.write_to_db_record.record_state_account_size(size);
}

/// Adds `size` bytes to the data written for bytecodes in StateChanges.
pub fn record_state_bytecode_size(metric: &mut PerfMetric, size: usize)
    requires
        old(metric).write_to_db_record.state_bytecode_size + size <= usize::MAX,
    ensures
        *final(metric) == (PerfMetric {
            write_to_db_record: WriteToDbRecord {
                state_bytecode_size: (old(metric).write_to_db_record.state_bytecode_size + size) as usize,
                ..old(metric).write_to_db_record
            },
            ..*old(metric)
        }),
{
    metric.write_to_db_record.record_state_bytecode_size(size);
}

/// Adds `size` bytes to the data written for storage in StateChanges.
pub fn record_state_storage_size(metric: &mut PerfMetric, size: usize)
    requires
        old(metric).write_to_db_record.state_storage_size + size <= usize::MAX,
    ensures
        *final(metric) == (PerfMetric {
            write_to_db_record: WriteToDbRecord {
                state_storage_size: (old(metric).write_to_db_record.state_storage_size + size) as usize,
                ..old(metric).write_to_db_record
            },
            ..*old(metric)
        }),
{
    metric.write_to_db_record.record_state_storage_size(size);
}

/// Adds the time of the append of storage changes in StateReverts: the single write ending at `now`.
pub fn record_revert_storage_append_time(metric: &mut PerfMetric, now: CycleInstant)
    requires
        old(metric).write_to_db_record.revert_storage_append_time + old(metric).write_to_db_record.write_step(now) <= u64::MAX,
    ensures
        *final(metric) == (PerfMetric {
            write_to_db_record: WriteToDbRecord {
                revert_storage_append_time: (old(metric).write_to_db_record.revert_storage_append_time
                    + old(metric).write_to_db_record.write_step(now)) as u64,
                ..old(metric).write_to_db_record
            },
            ..*old(metric)
        }),
{
    metric.write_to_db_record.record_revert_storage_append_time(now);
}

/// Adds the time of the append of account changes in StateReverts: the single write ending at `now`.
pub fn record_revert_account_append_time(metric: &mut PerfMetric, now: CycleInstant)
    requires
        old(metric).write_to_db_record.revert_account_append_time + old(metric).write_to_db_record.write_step(now) <= u64::MAX,
    ensures
        *final(metric) == (PerfMetric {
            write_to_db_record: WriteToDbRecord {
                revert_account_append_time: (old(metric).write_to_db_record.revert_account_append_time
                    + old(metric).write_to_db_record.write_step(now)) as u64,
                ..old(metric).write_to_db_record
            },
            ..*old(metric)
        }),
{
    metric.write_to_db_record.record_revert_account_append_time(now);
}

/// Adds the time of the append of receipts: the single write ending at `now`.
pub fn record_receipts_append_time(metric: &mut PerfMetric, now: CycleInstant)
    requires
        old(metric).write_to_db_record.receipts_append_time + old(metric).write_to_db_record.write_step(now) <= u64::MAX,
    ensures
        *final(metric) == (PerfMetric {
            write_to_db_record: WriteToDbRecord {
                receipts_append_time: (old(metric).write_to_db_record.receipts_append_time
                    + old(metric).write_to_db_record.write_step(now)) as u64,
                ..old(metric).write_to_db_record
            },
            ..*old(metric)
        }),
{
    metric.write_to_db_record.record_receipts_append_time(now);
}

/// Adds the time of the upsert of accounts in StateChanges: the single write ending at `now`.
pub fn record_state_account_upsert_time(metric: &mut PerfMetric, now: CycleInstant)
    requires
        old(metric).write_to_db_record.state_account_upsert_time + old(metric).write_to_db_record.write_step(now) <= u64::MAX,
    ensures
        *final(metric) == (PerfMetric {
            write_to_db_record: WriteToDbRecord {
                state_account_upsert_time: (old(metric).write_to_db_record.state_account_upsert_time
                    + old(metric).write_to_db_record.write_step(now)) as u64,
                ..old(metric).write_to_db_record
            },
            ..*old(metric)
        }),
{
    metric.write_to_db_record.record_state_account_upsert_time(now);
}

/// Adds the time of the upsert of bytecodes in StateChanges: the single write ending at `now`.
pub fn record_state_bytecode_upsert_time(metric: &mut PerfMetric, now: CycleInstant)
    requires
        old(metric).write_to_db_record.state_bytecode_upsert_time + old(metric).write_to_db_record.write_step(now) <= u64::MAX,
    ensures
        *final(metric) == (PerfMetric {
            write_to_db_record: WriteToDbRecord {
                state_bytecode_upsert_time: (old(metric).write_to_db_record.state_bytecode_upsert_time
                    + old(metric).write_to_db_record.write_step(now)) as u64,
                ..old(metric).write_to_db_record
            },
            ..*old(metric)
        }),
{
    metric.write_to_db_record.record_state_bytecode_upsert_time(now);
}

/// Adds the time of the upsert of storage in StateChanges: the single write ending at `now`.
pub fn record_state_storage_upsert_time(metric: &mut PerfMetric, now: CycleInstant)
    requires
        old(metric).write_to_db_record.state_storage_upsert_time + old(metric).write_to_db_record.write_step(now) <= u64::MAX,
    ensures
        *final(metric) == (PerfMetric {
            write_to_db_record: WriteToDbRecord {
                state_storage_upsert_time: (old(metric).write_to_db_record.state_storage_upsert_time
                    + old(metric).write_to_db_record.write_step(now)) as u64,
                ..old(metric).write_to_db_record
            },
            ..*old(metric)
        }),
{
    metric.write_to_db_record.record_state_storage_upsert_time(now);
}

/// Adds the time of write storage changes in StateReverts, the sub-step ending at `now`.
pub fn record_revert_storage_time(metric: &mut PerfMetric, now: CycleInstant)
    requires
        old(metric).write_to_db_record.revert_storage_time + old(metric).write_to_db_record.step(now) <= u64::MAX,
    ensures
        *final(metric) == (PerfMetric {
            write_to_db_record: WriteToDbRecord {
                revert_storage_time: (old(metric).write_to_db_record.revert_storage_time + old(metric).write_to_db_record.step(now)) as u64,
                sub_record: now,
                ..old(metric).write_to_db_record
            },
            ..*old(metric)
        }),
{
    metric.write_to_db_record.record_revert_storage_time(now);
}

/// Adds the time of write account changes in StateReverts, the sub-step ending at `now`.
pub fn record_revert_account_time(metric: &mut PerfMetric, now: CycleInstant)
    requires
        old(metric).write_to_db_record.revert_account_time + old(metric).write_to_db_record.step(now) <= u64::MAX,
    ensures
        *final(metric) == (PerfMetric {
            write_to_db_record: WriteToDbRecord {
                revert_account_time: (old(metric).write_to_db_record.revert_account_time + old(metric).write_to_db_record.step(now)) as u64,
                sub_record: now,
                ..old(metric).write_to_db_record
            },
            ..*old(metric)
        }),
{
    metric.write_to_db_record.record_revert_account_time(now);
}

/// Adds the time of write receipts, the sub-step ending at `now`.
pub fn record_write_receipts_time(metric: &mut PerfMetric, now: CycleInstant)
    requires
        old(metric).write_to_db_record.write_receipts_time + old(metric).write_to_db_record.step(now) <= u64::MAX,
    ensures
        *final(metric) == (PerfMetric {
            write_to_db_record: WriteToDbRecord {
                write_receipts_time: (old(metric).write_to_db_record.write_receipts_time + old(metric).write_to_db_record.step(now)) as u64,
                sub_record: now,
                ..old(metric).write_to_db_record
            },
            ..*old(metric)
        }),
{
    metric.write_to_db_record.record_write_receipts_time(now);
}

/// Adds the time of sort in StateChanges, the sub-step ending at `now`.
pub fn record_sort_time(metric: &mut PerfMetric, now: CycleInstant)
    requires
        old(metric).write_to_db_record.sort_time + old(metric).write_to_db_record.step(now) <= u64::MAX,
    ensures
        *final(metric) == (PerfMetric {
            write_to_db_record: WriteToDbRecord {
                sort_time: (old(metric).write_to_db_record.sort_time + old(metric).write_to_db_record.step(now)) as u64,
                sub_record: now,
                ..old(metric).write_to_db_record
            },
            ..*old(metric)
        }),
{
    metric.write_to_db_record.record_sort_time(now);
}

/// Adds the time of write accounts in StateChanges, the sub-step ending at `now`.
pub fn record_state_account_time(metric: &mut PerfMetric, now: CycleInstant)
    requires
        old(metric).write_to_db_record.state_account_time + old(metric).write_to_db_record.step(now) <= u64::MAX,
    ensures
        *final(metric) == (PerfMetric {
            write_to_db_record: WriteToDbRecord {
                state_account_time: (old(metric).write_to_db_record.state_account_time + old(metric).write_to_db_record.step(now)) as u64,
                sub_record: now,
                ..old(metric).write_to_db_record
            },
            ..*old(metric)
        }),
{
    metric.write_to_db_record.record_state_account_time(now);
}

/// Adds the time of write bytecodes in StateChanges, the sub-step ending at `now`.
pub fn record_state_bytecode_time(metric: &mut PerfMetric, now: CycleInstant)
    requires
        old(metric).write_to_db_record.state_bytecode_time + old(metric).write_to_db_record.step(now) <= u64::MAX,
    ensures
        *final(metric) == (PerfMetric {
            write_to_db_record: WriteToDbRecord {
                state_bytecode_time: (old(metric).write_to_db_record.state_bytecode_time + old(metric).write_to_db_record.step(now)) as u64,
                sub_record: now,
                ..old(metric).write_to_db_record
            },
            ..*old(metric)
        }),
{
    metric.write_to_db_record.record_state_bytecode_time(now);
}

/// Adds the time of writing storage in StateChanges, the last sub-step,
/// ending at `now`, and the total time of write_to_db.
pub fn record_state_storage_time(metric: &mut PerfMetric, now: CycleInstant)
    requires
        old(metric).write_to_db_record.state_storage_time + old(metric).write_to_db_record.step(now) <= u64::MAX,
        old(metric).write_to_db_record.total + cycles_since_or_zero(now, old(metric).write_to_db_record.start_record)
            <= u64::MAX,
    ensures
        *final(metric) == (PerfMetric {
            write_to_db_record: WriteToDbRecord {
                state_storage_time: (old(metric).write_to_db_record.state_storage_time
                    + old(metric).write_to_db_record.step(now)) as u64,
                total: (old(metric).write_to_db_record.total + cycles_since_or_zero(
                    now,
                    old(metric).write_to_db_record.start_record,
                )) as u64,
                sub_record: now,
                ..old(metric).write_to_db_record
            },
            ..*old(metric)
        }),
{
    metric.write_to_db_record.record_state_storage_time(now);
}

/// The recorder after `set_block_number(block_number)`.
pub open spec fn block_number_set(m: PerfMetric, block_number: u64) -> PerfMetric {
    PerfMetric {
        state_root_record: StateRootRecord {
            start_block_number: if m.state_root_start_set {
                m.state_root_record.start_block_number
            } else {
                block_number
            },
            end_block_number: block_number,
            ..m.state_root_record
        },
        state_root_start_set: true,
        ..m
    }
}

/// The recorder after `set_block_number` of each of `blocks`, in order.
pub open spec fn blocks_set(m: PerfMetric, blocks: Seq<u64>) -> PerfMetric
    decreases blocks.len(),
{
    if blocks.len() == 0 {
        m
    } else {
        block_number_set(blocks_set(m, blocks.drop_last()), blocks.last())
    }
}

/// Over any number of calls of `set_block_number`, the range starts at the
/// first block ever set and ends at the last one: starting from a recorder
/// that has set no block, after setting `blocks` the start is `blocks[0]`
/// and the end is the last of `blocks`; nothing else changes.
pub proof fn lemma_block_range(m: PerfMetric, blocks: Seq<u64>)
    requires
        !m.state_root_start_set,
        blocks.len() > 0,
    ensures
        blocks_set(m, blocks).state_root_record.start_block_number == blocks[0],
        blocks_set(m, blocks).state_root_record.end_block_number == blocks.last(),
        blocks_set(m, blocks).state_root_start_set,
        blocks_set(m, blocks) == (PerfMetric {
            state_root_record: StateRootRecord {
                start_block_number: blocks[0],
                end_block_number: blocks.last(),
                ..m.state_root_record
            },
            state_root_start_set: true,
            ..m
        }),
    decreases blocks.len(),
{
    if blocks.len() > 1 {
        lemma_block_range(m, blocks.drop_last());
        assert(blocks.drop_last()[0] == blocks[0]);
    } else {
        assert(blocks.drop_last().len() == 0);
        assert(blocks_set(m, blocks.drop_last()) == m);
        assert(blocks.last() == blocks[0]);
    }
}

/// Records the block range of the state-root measurement: the first block
/// set becomes the start of the range, every block set becomes its end.
pub fn set_block_number(metric: &mut PerfMetric, block_number: u64)
    ensures
        *final(metric) == block_number_set(*old(metric), block_number),
        final(metric).state_root_record == (StateRootRecord {
            start_block_number: if old(metric).state_root_start_set {
                old(metric).state_root_record.start_block_number
            } else {
                block_number
            },
            end_block_number: block_number,
            ..old(metric).state_root_record
        }),
        final(metric).state_root_start_set,
        *final(metric) == (PerfMetric {
            state_root_record: final(metric).state_root_record,
            state_root_start_set: true,
            ..*old(metric)
        }),
{
    if !metric.state_root_start_set {
        metric.state_root_record.start_block_number = block_number;
        metric.state_root_start_set = true;
    }
    metric.state_root_record.end_block_number = block_number;
}

/// Creating a `VerifyAndSaveReceiptsRecord` at `t1` and finishing it at
/// `t2` is verifying the receipts at `t1` and then saving them at `t2`:
/// the verify step grows by the cycles since the last step, the save step
/// by the cycles from `t1` to `t2`, the total by the cycles since the
/// execution started, and nothing else changes but the step's start.
pub proof fn lemma_verify_and_save(r: ExecuteTxsRecord, t1: CycleInstant, t2: CycleInstant)
    ensures
        ({
            let e = phase_ended(phase_ended(r, 5, t1), 6, t2);
            &&& e.verify_receipt == (r.verify_receipt + cycles_since_or_zero(t1, r.sub_record)) as u64
            &&& e.save_receipts == (r.save_receipts + cycles_since_or_zero(t2, t1)) as u64
            &&& e.total == (r.total + cycles_since_or_zero(t2, r.start_record)) as u64
            &&& e == (ExecuteTxsRecord {
                verify_receipt: e.verify_receipt,
                save_receipts: e.save_receipts,
                total: e.total,
                sub_record: t2,
                ..r
            })
        }),
{
}

} // verus!
