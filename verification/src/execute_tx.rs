//! Time spent in the steps of executing and verifying the transactions of a
//! block: each step adds the cycles since the previous step ended.
use vstd::prelude::*;

use crate::time::{CycleInstant, cycles_since_or_zero};

verus! {

/// Cycle counts of execute_and_verify_receipt and its sub-steps.
#[derive(Clone, Copy, Debug)]
pub struct ExecuteTxsRecord {
    /// The start of execute_and_verify_receipt.
    pub start_record: CycleInstant,
    /// The start of the current sub-step.
    pub sub_record: CycleInstant,
    /// Time of execute_and_verify_receipt.
    pub total: u64,
    /// Time of transact.
    pub transact: u64,
    /// Time of commit changes.
    pub commit_changes: u64,
    /// Time of add receipt.
    pub add_receipt: u64,
    /// Time of apply_post_execution_state_change.
    pub apply_post_execution_state_change: u64,
    /// Time of merge_transactions.
    pub merge_transactions: u64,
    /// Time of verify_receipt.
    pub verify_receipt: u64,
    /// Time of save_receipts.
    pub save_receipts: u64,
}

impl Default for ExecuteTxsRecord {
    fn default() -> (r: Self)
        ensures
            r.start_record.cycles == 0 && r.sub_record.cycles == 0,
            r.total == 0 && r.transact == 0 && r.commit_changes == 0 && r.add_receipt == 0,
            r.apply_post_execution_state_change == 0 && r.merge_transactions == 0,
            r.verify_receipt == 0 && r.save_receipts == 0,
    {
        ExecuteTxsRecord {
            start_record: CycleInstant { cycles: 0 },
            sub_record: CycleInstant { cycles: 0 },
            total: 0,
            transact: 0,
            commit_changes: 0,
            add_receipt: 0,
            apply_post_execution_state_change: 0,
            merge_transactions: 0,
            verify_receipt: 0,
            save_receipts: 0,
        }
    }
}

/// The record after the sub-step that `field` accumulates ends at `now`:
/// that field grows by the step's cycles and the next step starts.
pub open spec fn phase_ended(r: ExecuteTxsRecord, field: int, now: CycleInstant) -> ExecuteTxsRecord {
    let c = r.step(now);
    if field == 0 {
        ExecuteTxsRecord { transact: (r.transact + c) as u64, sub_record: now, ..r }
    } else if field == 1 {
        ExecuteTxsRecord { commit_changes: (r.commit_changes + c) as u64, sub_record: now, ..r }
    } else if field == 2 {
        ExecuteTxsRecord { add_receipt: (r.add_receipt + c) as u64, sub_record: now, ..r }
    } else if field == 3 {
        ExecuteTxsRecord {
            apply_post_execution_state_change: (r.apply_post_execution_state_change + c) as u64,
            sub_record: now,
            ..r
        }
    } else if field == 4 {
        ExecuteTxsRecord { merge_transactions: (r.merge_transactions + c) as u64, sub_record: now, ..r }
    } else if field == 5 {
        ExecuteTxsRecord { verify_receipt: (r.verify_receipt + c) as u64, sub_record: now, ..r }
    } else {
        ExecuteTxsRecord {
            save_receipts: (r.save_receipts + c) as u64,
            total: (r.total + cycles_since_or_zero(now, r.start_record)) as u64,
            sub_record: now,
            ..r
        }
    }
}

/// The record after a whole execution measured at `ts` (start), `t[0]`
/// (first sub-step starts) and `t[1]` to `t[7]` (the ends of transact,
/// commit changes, add receipt, apply post-execution state change, merge
/// transactions, verify receipt and save receipts).
pub open spec fn execution_measured(r: ExecuteTxsRecord, ts: CycleInstant, t: Seq<CycleInstant>) -> ExecuteTxsRecord {
    let r0 = ExecuteTxsRecord { start_record: ts, sub_record: t[0], ..r };
    phase_ended(phase_ended(phase_ended(phase_ended(phase_ended(phase_ended(phase_ended(
        r0, 0, t[1]), 1, t[2]), 2, t[3]), 3, t[4]), 4, t[5]), 5, t[6]), 6, t[7])
}

/// Over one measured execution of transactions, with the clock read in
/// order, each of the seven sub-steps grows by the cycles between its start
/// and its end, these add up to the cycles from the first start to the last
/// end, and the total grows once, by the cycles since the start.
pub proof fn lemma_execution_phases(r: ExecuteTxsRecord, ts: CycleInstant, t: Seq<CycleInstant>)
    requires
        t.len() == 8,
        ts.cycles <= t[0].cycles,
        forall|i: int, j: int| 0 <= i <= j < 8 ==> #[trigger] t[i].cycles <= #[trigger] t[j].cycles,
        r.transact + (t[1].cycles - t[0].cycles) <= u64::MAX,
        r.commit_changes + (t[2].cycles - t[1].cycles) <= u64::MAX,
        r.add_receipt + (t[3].cycles - t[2].cycles) <= u64::MAX,
        r.apply_post_execution_state_change + (t[4].cycles - t[3].cycles) <= u64::MAX,
        r.merge_transactions + (t[5].cycles - t[4].cycles) <= u64::MAX,
        r.verify_receipt + (t[6].cycles - t[5].cycles) <= u64::MAX,
        r.save_receipts + (t[7].cycles - t[6].cycles) <= u64::MAX,
        r.total + (t[7].cycles - ts.cycles) <= u64::MAX,
    ensures
        ({
            let e = execution_measured(r, ts, t);
            &&& e.transact == r.transact + (t[1].cycles - t[0].cycles)
            &&& e.commit_changes == r.commit_changes + (t[2].cycles - t[1].cycles)
            &&& e.add_receipt == r.add_receipt + (t[3].cycles - t[2].cycles)
            &&& e.apply_post_execution_state_change == r.apply_post_execution_state_change + (t[4].cycles
                - t[3].cycles)
            &&& e.merge_transactions == r.merge_transactions + (t[5].cycles - t[4].cycles)
            &&& e.verify_receipt == r.verify_receipt + (t[6].cycles - t[5].cycles)
            &&& e.save_receipts == r.save_receipts + (t[7].cycles - t[6].cycles)
            &&& (e.transact - r.transact) + (e.commit_changes - r.commit_changes) + (e.add_receipt
                - r.add_receipt) + (e.apply_post_execution_state_change - r.apply_post_execution_state_change)
                + (e.merge_transactions - r.merge_transactions) + (e.verify_receipt - r.verify_receipt) + (
            e.save_receipts - r.save_receipts) == t[7].cycles - t[0].cycles
            &&& e.total == r.total + (t[7].cycles - ts.cycles)
            &&& e.start_record == ts
            &&& e.sub_record == t[7]
        }),
{
    assert(t[0].cycles <= t[1].cycles);
    assert(t[1].cycles <= t[2].cycles);
    assert(t[2].cycles <= t[3].cycles);
    assert(t[3].cycles <= t[4].cycles);
    assert(t[4].cycles <= t[5].cycles);
    assert(t[5].cycles <= t[6].cycles);
    assert(t[6].cycles <= t[7].cycles);
}

impl ExecuteTxsRecord {
    /// Cycles of the sub-step that ends at `now`.
    pub open spec fn step(&self, now: CycleInstant) -> u64 {
        cycles_since_or_zero(now, self.sub_record)
    }

    /// Start record.
    pub fn start_record(&mut self, now: CycleInstant)
        ensures
            *final(self) == (ExecuteTxsRecord { start_record: now, ..*old(self) }),
    {
        self.start_record = now;
    }

    /// Start sub record.
    pub fn start_sub_record(&mut self, now: CycleInstant)
        ensures
            *final(self) == (ExecuteTxsRecord { sub_record: now, ..*old(self) }),
    {
        self.sub_record = now;
    }

    /// Ends the current sub-step at `now`: returns its cycles and starts the
    /// next one.
    fn record_sub_time(&mut self, now: CycleInstant) -> (r: (u64, CycleInstant))
        ensures
            r == (old(self).step(now), now),
            *final(self) == (ExecuteTxsRecord { sub_record: now, ..*old(self) }),
    {
        let cycles = now.cycles_since_or_zero(self.sub_record);
        self.sub_record = now;
        (cycles, now)
    }

    /// Adds the cycles since `start_record` to the total.
    fn record_total_time(&mut self, now: CycleInstant)
        requires
            old(self).total + cycles_since_or_zero(now, old(self).start_record) <= u64::MAX,
        ensures
            *final(self) == (ExecuteTxsRecord {
                total: (old(self).total + cycles_since_or_zero(now, old(self).start_record)) as u64,
                ..*old(self)
            }),
    {
        let cycles = now.cycles_since_or_zero(self.start_record);
        self.total = self.total + cycles;
    }

    /// Add time of transact.
    pub fn transact_record(&mut self, now: CycleInstant)
        requires
            old(self).transact + old(self).step(now) <= u64::MAX,
        ensures
            *final(self) == phase_ended(*old(self), 0, now),
            *final(self) == (ExecuteTxsRecord {
                transact: (old(self).transact + old(self).step(now)) as u64,
                sub_record: now,
                ..*old(self)
            }),
    {
        let (cycles, _) = self.record_sub_time(now);
        self.transact = self.transact + cycles;
    }

    /// Add time of commit changes.
    pub fn commit_changes_record(&mut self, now: CycleInstant)
        requires
            old(self).commit_changes + old(self).step(now) <= u64::MAX,
        ensures
            *final(self) == phase_ended(*old(self), 1, now),
            *final(self) == (ExecuteTxsRecord {
                commit_changes: (old(self).commit_changes + old(self).step(now)) as u64,
                sub_record: now,
                ..*old(self)
            }),
    {
        let (cycles, _) = self.record_sub_time(now);
        self.commit_changes = self.commit_changes + cycles;
    }

    /// Add time of add receipt.
    pub fn add_receipt_record(&mut self, now: CycleInstant)
        requires
            old(self).add_receipt + old(self).step(now) <= u64::MAX,
        ensures
            *final(self) == phase_ended(*old(self), 2, now),
            *final(self) == (ExecuteTxsRecord {
                add_receipt: (old(self).add_receipt + old(self).step(now)) as u64,
                sub_record: now,
                ..*old(self)
            }),
    {
        let (cycles, _) = self.record_sub_time(now);
        self.add_receipt = self.add_receipt + cycles;
    }

    /// Add time of apply_post_execution_state_change.
    pub fn apply_post_execution_state_change_record(&mut self, now: CycleInstant)
        requires
            old(self).apply_post_execution_state_change + old(self).step(now) <= u64::MAX,
        ensures
            *final(self) == phase_ended(*old(self), 3, now),
            *final(self) == (ExecuteTxsRecord {
                apply_post_execution_state_change: (old(self).apply_post_execution_state_change
                    + old(self).step(now)) as u64,
                sub_record: now,
                ..*old(self)
            }),
    {
        let (cycles, _) = self.record_sub_time(now);
        self.apply_post_execution_state_change = self.apply_post_execution_state_change + cycles;
    }

    /// Add time of merge_transactions.
    pub fn merge_transactions_record(&mut self, now: CycleInstant)
        requires
            old(self).merge_transactions + old(self).step(now) <= u64::MAX,
        ensures
            *final(self) == phase_ended(*old(self), 4, now),
            *final(self) == (ExecuteTxsRecord {
                merge_transactions: (old(self).merge_transactions + old(self).step(now)) as u64,
                sub_record: now,
                ..*old(self)
            }),
    {
        let (cycles, _) = self.record_sub_time(now);
        self.merge_transactions = self.merge_transactions + cycles;
    }

    /// Add time of verify_receipt.
    pub fn verify_receipt_record(&mut self, now: CycleInstant)
        requires
            old(self).verify_receipt + old(self).step(now) <= u64::MAX,
        ensures
            *final(self) == phase_ended(*old(self), 5, now),
            *final(self) == (ExecuteTxsRecord {
                verify_receipt: (old(self).verify_receipt + old(self).step(now)) as u64,
                sub_record: now,
                ..*old(self)
            }),
    {
        let (cycles, _) = self.record_sub_time(now);
        self.verify_receipt = self.verify_receipt + cycles;
    }

    /// Add time of save_receipts, which ends execute_and_verify_receipt: the
    /// cycles since `start_record` are added to the total.
    pub fn save_receipts_record(&mut self, now: CycleInstant)
        requires
            old(self).save_receipts + old(self).step(now) <= u64::MAX,
            old(self).total + cycles_since_or_zero(now, old(self).start_record) <= u64::MAX,
        ensures
            *final(self) == phase_ended(*old(self), 6, now),
            *final(self) == (ExecuteTxsRecord {
                save_receipts: (old(self).save_receipts + old(self).step(now)) as u64,
                total: (old(self).total + cycles_since_or_zero(now, old(self).start_record)) as u64,
                sub_record: now,
                ..*old(self)
            }),
    {
        let (cycles, now) = self.record_sub_time(now);
        self.save_receipts = self.save_receipts + cycles;
        self.record_total_time(now);
    }

    /// Return total.
    pub fn total(&self) -> (r: u64)
        ensures
            r == self.total,
    {
        self.total
    }

    /// Return transact.
    pub fn transact(&self) -> (r: u64)
        ensures
            r == self.transact,
    {
        self.transact
    }

    /// Return commit changes.
    pub fn commit_changes(&self) -> (r: u64)
        ensures
            r == self.commit_changes,
    {
        self.commit_changes
    }

    /// Return add_receipt.
    pub fn add_receipt(&self) -> (r: u64)
        ensures
            r == self.add_receipt,
    {
        self.add_receipt
    }

    /// Return apply_post_execution_state_change.
    pub fn apply_post_execution_state_change(&self) -> (r: u64)
        ensures
            r == self.apply_post_execution_state_change,
    {
        self.apply_post_execution_state_change
    }

    /// Return merge_transactions.
    pub fn merge_transactions(&self) -> (r: u64)
        ensures
            r == self.merge_transactions,
    {
        self.merge_transactions
    }

    /// Return verify_receipt.
    pub fn verify_receipt(&self) -> (r: u64)
        ensures
            r == self.verify_receipt,
    {
        self.verify_receipt
    }

    /// Return save_receipts.
    pub fn save_receipts(&self) -> (r: u64)
        ensures
            r == self.save_receipts,
    {
        self.save_receipts
    }
}

} // verus!
