//! The node's dashboard: it sums the execution stage's records over runs,
//! and measures transactions per second between reports.
use vstd::prelude::*;

use crate::display::{NANOS_PER_SECOND, PRINT_INTERVAL, tps, tps_of};
use crate::stage_metrics::{elapsed_nanos, instant_now, DbSpeedRecord};

verus! {

/// Transactions and gas since the last report, and the clock at its time.
#[derive(Debug)]
pub struct TpsAndGasRecordDisplayer {
    pub delta_txs: u128,
    pub delta_gas: u128,
    pub last_instant: minstant::Instant,
}

/// What a report shows: the time measured, transactions per second, and
/// the gas used in that time.
#[derive(Clone, Copy, Debug)]
pub struct NodeTpsReport {
    pub elapsed_ns: u128,
    pub tps: u128,
    pub delta_gas: u128,
}

impl Default for TpsAndGasRecordDisplayer {
    fn default() -> (r: Self)
        ensures
            r.delta_txs == 0 && r.delta_gas == 0,
    {
        TpsAndGasRecordDisplayer { delta_txs: 0, delta_gas: 0, last_instant: instant_now() }
    }
}

impl TpsAndGasRecordDisplayer {
    /// Adds a block of `txs` transactions using `gas` gas; returns whether a
    /// report is due, which is at each multiple of `PRINT_INTERVAL`.
    pub fn update_tps_and_gas(&mut self, block_number: u64, txs: u64, gas: u64) -> (due: bool)
        requires
            old(self).delta_txs + txs <= u128::MAX,
            old(self).delta_gas + gas <= u128::MAX,
        ensures
            final(self).delta_txs == old(self).delta_txs + txs,
            final(self).delta_gas == old(self).delta_gas + gas,
            final(self).last_instant == old(self).last_instant,
            due == (block_number % PRINT_INTERVAL == 0),
    {
        self.delta_txs = self.delta_txs + txs as u128;
        self.delta_gas = self.delta_gas + gas as u128;
        block_number % PRINT_INTERVAL == 0
    }

    /// Nanoseconds since the last report, read off the clock; which value
    /// comes back depends on the time and is not claimed.
    pub fn elapsed_ns(&self) -> (r: u64) {
        elapsed_nanos(&self.last_instant)
    }

    /// The report over the `elapsed_ns` nanoseconds since the last one; the
    /// counts start again from zero, now.
    pub fn report(&mut self, elapsed_ns: u64) -> (r: NodeTpsReport)
        requires
            elapsed_ns > 0,
            old(self).delta_txs * NANOS_PER_SECOND <= u128::MAX,
        ensures
            r.elapsed_ns == elapsed_ns,
            r.tps == tps_of(old(self).delta_txs, elapsed_ns as u128),
            r.delta_gas == old(self).delta_gas,
            final(self).delta_txs == 0,
            final(self).delta_gas == 0,
    {
        let elapsed: u128 = elapsed_ns as u128;
        let r = NodeTpsReport { elapsed_ns: elapsed, tps: tps(self.delta_txs, elapsed), delta_gas: self.delta_gas };
        self.delta_txs = 0;
        self.delta_gas = 0;
        self.last_instant = instant_now();
        r
    }

    /// Starts counting from zero, now.
    pub fn start_record(&mut self)
        ensures
            final(self).delta_txs == 0,
            final(self).delta_gas == 0,
    {
        self.delta_txs = 0;
        self.delta_gas = 0;
        self.last_instant = instant_now();
    }
}

/// The database-speed records of all runs, summed.
#[derive(Clone, Copy, Debug)]
pub struct DBSpeedDisplayer {
    pub db_speed_record: DbSpeedRecord,
}

impl DBSpeedDisplayer {
    /// A displayer that has summed nothing.
    pub fn new() -> (r: Self)
        ensures
            r.db_speed_record.read_header_td_db_time.0 == 0,
            r.db_speed_record.read_header_td_db_time.1@ == 0,
            r.db_speed_record.read_block_with_senders_db_time.0 == 0,
            r.db_speed_record.read_block_with_senders_db_time.1@ == 0,
            r.db_speed_record.write_to_db_time.0 == 0,
            r.db_speed_record.write_to_db_time.1@ == 0,
            r.db_speed_record.read_header_td_db_size == 0,
            r.db_speed_record.read_block_with_senders_db_size == 0,
            r.db_speed_record.write_to_db_size == 0,
    {
        DBSpeedDisplayer { db_speed_record: DbSpeedRecord::default() }
    }

    /// Adds the record of a run.
    pub fn update_db_speed_record(&mut self, record: DbSpeedRecord)
        requires
            old(self).db_speed_record.read_header_td_db_time.0 + record.read_header_td_db_time.0 <= u64::MAX,
            old(self).db_speed_record.read_header_td_db_time.1@ + record.read_header_td_db_time.1@
                <= crate::time::MAX_DURATION_NANOS,
            old(self).db_speed_record.read_header_td_db_size + record.read_header_td_db_size <= u64::MAX,
            old(self).db_speed_record.read_block_with_senders_db_time.0 + record.read_block_with_senders_db_time.0
                <= u64::MAX,
            old(self).db_speed_record.read_block_with_senders_db_time.1@
                + record.read_block_with_senders_db_time.1@ <= crate::time::MAX_DURATION_NANOS,
            old(self).db_speed_record.read_block_with_senders_db_size + record.read_block_with_senders_db_size
                <= u64::MAX,
            old(self).db_speed_record.write_to_db_time.0 + record.write_to_db_time.0 <= u64::MAX,
            old(self).db_speed_record.write_to_db_time.1@ + record.write_to_db_time.1@
                <= crate::time::MAX_DURATION_NANOS,
            old(self).db_speed_record.write_to_db_size + record.write_to_db_size <= u64::MAX,
        ensures
            final(self).db_speed_record.read_header_td_db_time.0 == old(self).db_speed_record.read_header_td_db_time.0
                + record.read_header_td_db_time.0,
            final(self).db_speed_record.read_header_td_db_time.1@ == old(self).db_speed_record.read_header_td_db_time.1@
                + record.read_header_td_db_time.1@,
            final(self).db_speed_record.read_header_td_db_size == old(self).db_speed_record.read_header_td_db_size
                + record.read_header_td_db_size,
            final(self).db_speed_record.read_block_with_senders_db_time.0
                == old(self).db_speed_record.read_block_with_senders_db_time.0
                + record.read_block_with_senders_db_time.0,
            final(self).db_speed_record.read_block_with_senders_db_time.1@
                == old(self).db_speed_record.read_block_with_senders_db_time.1@
                + record.read_block_with_senders_db_time.1@,
            final(self).db_speed_record.read_block_with_senders_db_size
                == old(self).db_speed_record.read_block_with_senders_db_size
                + record.read_block_with_senders_db_size,
            final(self).db_speed_record.write_to_db_time.0 == old(self).db_speed_record.write_to_db_time.0
                + record.write_to_db_time.0,
            final(self).db_speed_record.write_to_db_time.1@ == old(self).db_speed_record.write_to_db_time.1@
                + record.write_to_db_time.1@,
            final(self).db_speed_record.write_to_db_size == old(self).db_speed_record.write_to_db_size
                + record.write_to_db_size,
    {
        self.db_speed_record.add(record);
    }
}

} // verus!
