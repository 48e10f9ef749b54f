//! Cycles of the steps of executing a block's transactions in the EVM
//! executor: transact, commit changes, add receipt, apply post-block
//! changes and verify receipts, and their total.
use vstd::prelude::*;

use crate::time::{CycleInstant, cycles_since_or_zero};

verus! {

/// Cycles spent in execute_and_verify_receipt and each of its steps.
#[derive(Clone, Copy, Debug)]
pub struct ExecuteTxsRecord {
    /// The start of execute_and_verify_receipt.
    pub start_record: CycleInstant,
    /// The start of the current step.
    pub sub_record: CycleInstant,
    /// Time of execute_and_verify_receipt.
    pub total: u64,
    /// Time of transact.
    pub transact: u64,
    /// Time of commit changes.
    pub commit_changes: u64,
    /// Time of add receipt.
    pub add_receipt: u64,
    /// Time of apply_post_block_changes.
    pub apply_post_block_changes: u64,
    /// Time of verify_receipt.
    pub verify_receipt: u64,
}

impl Default for ExecuteTxsRecord {
    fn default() -> (r: Self)
        ensures
            r.start_record.cycles == 0 && r.sub_record.cycles == 0,
            r.total == 0 && r.transact == 0 && r.commit_changes == 0 && r.add_receipt == 0,
            r.apply_post_block_changes == 0 && r.verify_receipt == 0,
    {
        ExecuteTxsRecord {
            start_record: CycleInstant { cycles: 0 },
            sub_record: CycleInstant { cycles: 0 },
            total: 0,
            transact: 0,
            commit_changes: 0,
            add_receipt: 0,
            apply_post_block_changes: 0,
            verify_receipt: 0,
        }
    }
}

impl ExecuteTxsRecord {
    /// Cycles of the step that ends at `now`.
    pub open spec fn step(&self, now: CycleInstant) -> u64 {
        cycles_since_or_zero(now, self.sub_record)
    }

    /// Start record.
    pub fn start_record(&mut self, now: CycleInstant)
        ensures
            *final(self) == (ExecuteTxsRecord { start_record: now, ..*old(self) }),
    {
        self.start_record = now;
    }

    /// Start sub record.
    pub fn start_sub_recorder(&mut self, now: CycleInstant)
        ensures
            *final(self) == (ExecuteTxsRecord { sub_record: now, ..*old(self) }),
    {
        self.sub_record = now;
    }

    /// Ends the current step at `now`: returns its cycles and starts the
    /// next one.
    fn record_sub_time(&mut self, now: CycleInstant) -> (r: (u64, CycleInstant))
        ensures
            r == (old(self).step(now), now),
            *final(self) == (ExecuteTxsRecord { sub_record: now, ..*old(self) }),
    {
        let cycles = now.cycles_since_or_zero(self.sub_record);
        self.sub_record = now;
        (cycles, now)
    }

    /// Adds the cycles since `start_record` to the total.
    fn record_total_time(&mut self, now: CycleInstant)
        requires
            old(self).total + cycles_since_or_zero(now, old(self).start_record) <= u64::MAX,
        ensures
            *final(self) == (ExecuteTxsRecord {
                total: (old(self).total + cycles_since_or_zero(now, old(self).start_record)) as u64,
                ..*old(self)
            }),
    {
        let cycles = now.cycles_since_or_zero(self.start_record);
        self.total = self.total + cycles;
    }

    /// Adds the time of transact, the step ending at `now`.
    pub fn transact_record(&mut self, now: CycleInstant)
        requires
            old(self).transact + old(self).step(now) <= u64::MAX,
        ensures
            *final(self) == (ExecuteTxsRecord {
                transact: (old(self).transact + old(self).step(now)) as u64,
                sub_record: now,
                ..*old(self)
            }),
    {
        let (cycles, _) = self.record_sub_time(now);
        self.transact = self.transact + cycles;
    }

    /// Adds the time of commit changes, the step ending at `now`.
    pub fn commit_changes_record(&mut self, now: CycleInstant)
        requires
            old(self).commit_changes + old(self).step(now) <= u64::MAX,
        ensures
            *final(self) == (ExecuteTxsRecord {
                commit_changes: (old(self).commit_changes + old(self).step(now)) as u64,
                sub_record: now,
                ..*old(self)
            }),
    {
        let (cycles, _) = self.record_sub_time(now);
        self.commit_changes = self.commit_changes + cycles;
    }

    /// Adds the time of add receipt, the step ending at `now`.
    pub fn add_receipt_record(&mut self, now: CycleInstant)
        requires
            old(self).add_receipt + old(self).step(now) <= u64::MAX,
        ensures
            *final(self) == (ExecuteTxsRecord {
                add_receipt: (old(self).add_receipt + old(self).step(now)) as u64,
                sub_record: now,
                ..*old(self)
            }),
    {
        let (cycles, _) = self.record_sub_time(now);
        self.add_receipt = self.add_receipt + cycles;
    }

    /// Adds the time of apply_post_block_changes, the step ending at `now`.
    pub fn apply_post_block_changes_record(&mut self, now: CycleInstant)
        requires
            old(self).apply_post_block_changes + old(self).step(now) <= u64::MAX,
        ensures
            *final(self) == (ExecuteTxsRecord {
                apply_post_block_changes: (old(self).apply_post_block_changes + old(self).step(now)) as u64,
                sub_record: now,
                ..*old(self)
            }),
    {
        let (cycles, _) = self.record_sub_time(now);
        self.apply_post_block_changes = self.apply_post_block_changes + cycles;
    }

    /// Adds the time of verify_receipt, the last step, ending at `now`, and
    /// the total time since `start_record`.
    pub fn verify_receipt_record(&mut self, now: CycleInstant)
        requires
            verify_ok(*old(self), now),
        ensures
            *final(self) == verified(*old(self), now),
    {
        let (cycles, now) = self.record_sub_time(now);
        self.verify_receipt = self.verify_receipt + cycles;
        self.record_total_time(now);
    }

    /// Return total.
    pub fn total(&self) -> (r: u64)
        ensures
            r == self.total,
    {
        self.total
    }

    /// Return transact.
    pub fn transact(&self) -> (r: u64)
        ensures
            r == self.transact,
    {
        self.transact
    }

    /// Return commit_changes.
    pub fn commit_changes(&self) -> (r: u64)
        ensures
            r == self.commit_changes,
    {
        self.commit_changes
    }

    /// Return add_receipt.
    pub fn add_receipt(&self) -> (r: u64)
        ensures
            r == self.add_receipt,
    {
        self.add_receipt
    }

    /// Return apply_post_block_changes.
    pub fn apply_post_block_changes(&self) -> (r: u64)
        ensures
            r == self.apply_post_block_changes,
    {
        self.apply_post_block_changes
    }

    /// Return verify_receipt.
    pub fn verify_receipt(&self) -> (r: u64)
        ensures
            r == self.verify_receipt,
    {
        self.verify_receipt
    }
}

/// What verifying the receipts at `now` needs: both sums fit.
pub open spec fn verify_ok(r: ExecuteTxsRecord, now: CycleInstant) -> bool {
    &&& r.verify_receipt + r.step(now) <= u64::MAX
    &&& r.total + cycles_since_or_zero(now, r.start_record) <= u64::MAX
}

/// The record after verifying the receipts at `now`.
pub open spec fn verified(r: ExecuteTxsRecord, now: CycleInstant) -> ExecuteTxsRecord {
    ExecuteTxsRecord {
        verify_receipt: (r.verify_receipt + r.step(now)) as u64,
        total: (r.total + cycles_since_or_zero(now, r.start_record)) as u64,
        sub_record: now,
        ..r
    }
}

/// Start execute_tx record.
pub fn start_execute_tx_record(record: &mut ExecuteTxsRecord, now: CycleInstant)
    ensures
        *final(record) == (ExecuteTxsRecord { start_record: now, ..*old(record) }),
{
    record.start_record(now);
}

/// Start execute_tx sub record.
pub fn start_execute_tx_sub_recorder(record: &mut ExecuteTxsRecord, now: CycleInstant)
    ensures
        *final(record) == (ExecuteTxsRecord { sub_record: now, ..*old(record) }),
{
    record.start_sub_recorder(now);
}

/// Adds the time of transact, the step ending at `now`.
pub fn transact_record(record: &mut ExecuteTxsRecord, now: CycleInstant)
    requires
        old(record).transact + old(record).step(now) <= u64::MAX,
    ensures
        *final(record) == (ExecuteTxsRecord {
            transact: (old(record).transact + old(record).step(now)) as u64,
            sub_record: now,
            ..*old(record)
        }),
{
    record.transact_record(now);
}

/// Adds the time of commit changes, the step ending at `now`.
pub fn commit_changes_record(record: &mut ExecuteTxsRecord, now: CycleInstant)
    requires
        old(record).commit_changes + old(record).step(now) <= u64::MAX,
    ensures
        *final(record) == (ExecuteTxsRecord {
            commit_changes: (old(record).commit_changes + old(record).step(now)) as u64,
            sub_record: now,
            ..*old(record)
        }),
{
    record.commit_changes_record(now);
}

/// Adds the time of add receipt, the step ending at `now`.
pub fn add_receipt_record(record: &mut ExecuteTxsRecord, now: CycleInstant)
    requires
        old(record).add_receipt + old(record).step(now) <= u64::MAX,
    ensures
        *final(record) == (ExecuteTxsRecord {
            add_receipt: (old(record).add_receipt + old(record).step(now)) as u64,
            sub_record: now,
            ..*old(record)
        }),
{
    record.add_receipt_record(now);
}

/// Adds the time of apply_post_block_changes, the step ending at `now`.
pub fn apply_post_block_changes_record(record: &mut ExecuteTxsRecord, now: CycleInstant)
    requires
        old(record).apply_post_block_changes + old(record).step(now) <= u64::MAX,
    ensures
        *final(record) == (ExecuteTxsRecord {
            apply_post_block_changes: (old(record).apply_post_block_changes + old(record).step(now)) as u64,
            sub_record: now,
            ..*old(record)
        }),
{
    record.apply_post_block_changes_record(now);
}

/// Adds the time of verify_receipt, ending at `now`, and the total time.
pub fn verify_receipt_record(record: &mut ExecuteTxsRecord, now: CycleInstant)
    requires
        verify_ok(*old(record), now),
    ensures
        *final(record) == verified(*old(record), now),
{
    record.verify_receipt_record(now);
}

/// A copy of the record.
pub fn get_execute_tx_record(record: &ExecuteTxsRecord) -> (r: ExecuteTxsRecord)
    ensures
        r == *record,
{
    *record
}

/// Measures apply_post_block_changes: creating it starts the step,
/// finishing it adds the step's time.
pub struct ApplyPostBlockChangesRecord;

impl ApplyPostBlockChangesRecord {
    /// Starts the step at `now`.
    pub fn new(record: &mut ExecuteTxsRecord, now: CycleInstant) -> (r: Self)
        ensures
            *final(record) == apply_started(*old(record), now),
            *final(record) == (ExecuteTxsRecord { sub_record: now, ..*old(record) }),
    {
        start_execute_tx_sub_recorder(record, now);
        ApplyPostBlockChangesRecord
    }

    /// Adds the time of the step, ending at `now`.
    pub fn finish(self, record: &mut ExecuteTxsRecord, now: CycleInstant)
        requires
            old(record).apply_post_block_changes + old(record).step(now) <= u64::MAX,
        ensures
            *final(record) == apply_finished(*old(record), now),
            *final(record) == (ExecuteTxsRecord {
                apply_post_block_changes: (old(record).apply_post_block_changes + old(record).step(now)) as u64,
                sub_record: now,
                ..*old(record)
            }),
    {
        apply_post_block_changes_record(record, now);
    }
}

/// The record after `ApplyPostBlockChangesRecord::new` at `t1`.
pub open spec fn apply_started(r: ExecuteTxsRecord, t1: CycleInstant) -> ExecuteTxsRecord {
    ExecuteTxsRecord { sub_record: t1, ..r }
}

/// The record after finishing `ApplyPostBlockChangesRecord` at `t2`.
pub open spec fn apply_finished(r: ExecuteTxsRecord, t2: CycleInstant) -> ExecuteTxsRecord {
    ExecuteTxsRecord {
        apply_post_block_changes: (r.apply_post_block_changes + r.step(t2)) as u64,
        sub_record: t2,
        ..r
    }
}

/// Creating an `ApplyPostBlockChangesRecord` at `t1` and finishing it at
/// `t2` adds the cycles from `t1` to `t2` (none where `t2` is earlier) to
/// the apply_post_block_changes step and changes no other step nor the
/// total.
pub proof fn lemma_apply_post_block_changes(r: ExecuteTxsRecord, t1: CycleInstant, t2: CycleInstant)
    ensures
        ({
            let e = apply_finished(apply_started(r, t1), t2);
            &&& e.apply_post_block_changes == (r.apply_post_block_changes + cycles_since_or_zero(t2, t1)) as u64
            &&& e.total == r.total && e.transact == r.transact && e.commit_changes == r.commit_changes
            &&& e.add_receipt == r.add_receipt && e.verify_receipt == r.verify_receipt
            &&& e.start_record == r.start_record && e.sub_record == t2
        }),
{
}

} // verus!
