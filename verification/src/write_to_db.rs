//! Time and data size of the steps of writing a block's post state to the
//! database.
use vstd::prelude::*;

use crate::time::{CycleInstant, cycles_since_or_zero};

verus! {

/// Time spent and bytes written by write_to_db and each of its sub-steps.
#[derive(Clone, Copy, Debug)]
pub struct WriteToDbRecord {
    /// The start of write_to_db.
    pub start_record: CycleInstant,
    /// The start of the current sub-step.
    pub sub_record: CycleInstant,
    /// The start of the current single write.
    pub write_record: CycleInstant,
    /// Time of write_to_db.
    pub total: u64,
    /// Time of write storage changes in StateReverts.
    pub revert_storage_time: u64,
    /// Data size of write storage changes in StateReverts.
    pub revert_storage_size: usize,
    /// Time of the append of storage changes in StateReverts.
    pub revert_storage_append_time: u64,
    /// Time of write account changes in StateReverts.
    pub revert_account_time: u64,
    /// Data size of write account changes in StateReverts.
    pub revert_account_size: usize,
    /// Time of the append of account changes in StateReverts.
    pub revert_account_append_time: u64,
    /// Time of write receipts.
    pub write_receipts_time: u64,
    /// Data size of write receipts.
    pub write_receipts_size: usize,
    /// Time of the append of receipts.
    pub receipts_append_time: u64,
    /// Time of sort in StateChanges's write_to_db.
    pub sort_time: u64,
    /// Time of write account in StateChanges.
    pub state_account_time: u64,
    /// Data size of write account in StateChanges.
    pub state_account_size: usize,
    /// Time of the upsert of accounts in StateChanges.
    pub state_account_upsert_time: u64,
    /// Time of write bytecode in StateChanges.
    pub state_bytecode_time: u64,
    /// Data size of write bytecode in StateChanges.
    pub state_bytecode_size: usize,
    /// Time of the upsert of bytecodes in StateChanges.
    pub state_bytecode_upsert_time: u64,
    /// Time of write storage in StateChanges.
    pub state_storage_time: u64,
    /// Data size of write storage in StateChanges.
    pub state_storage_size: usize,
    /// Time of the upsert of storage in StateChanges.
    pub state_storage_upsert_time: u64,
}

impl Default for WriteToDbRecord {
    fn default() -> (r: Self)
        ensures
            r.start_record.cycles == 0 && r.sub_record.cycles == 0 && r.write_record.cycles == 0,
            r.total == 0,
            r.revert_storage_time == 0 && r.revert_storage_size == 0 && r.revert_storage_append_time == 0 && r.revert_account_time == 0 && r.revert_account_size == 0 && r.revert_account_append_time == 0 && r.write_receipts_time == 0 && r.write_receipts_size == 0 && r.receipts_append_time == 0 && r.sort_time == 0,
            r.state_account_time == 0 && r.state_account_size == 0 && r.state_account_upsert_time == 0 && r.state_bytecode_time == 0 && r.state_bytecode_size == 0 && r.state_bytecode_upsert_time == 0 && r.state_storage_time == 0 && r.state_storage_size == 0 && r.state_storage_upsert_time == 0,
    {
        WriteToDbRecord {
            start_record: CycleInstant { cycles: 0 },
            sub_record: CycleInstant { cycles: 0 },
            write_record: CycleInstant { cycles: 0 },
            total: 0,
            revert_storage_time: 0,
            revert_storage_size: 0,
            revert_storage_append_time: 0,
            revert_account_time: 0,
            revert_account_size: 0,
            revert_account_append_time: 0,
            write_receipts_time: 0,
            write_receipts_size: 0,
            receipts_append_time: 0,
            sort_time: 0,
            state_account_time: 0,
            state_account_size: 0,
            state_account_upsert_time: 0,
            state_bytecode_time: 0,
            state_bytecode_size: 0,
            state_bytecode_upsert_time: 0,
            state_storage_time: 0,
            state_storage_size: 0,
            state_storage_upsert_time: 0,
        }
    }
}

impl WriteToDbRecord {
    /// Cycles of the sub-step that ends at `now`.
    pub open spec fn step(&self, now: CycleInstant) -> u64 {
        cycles_since_or_zero(now, self.sub_record)
    }

    /// Cycles of the single write that ends at `now`.
    pub open spec fn write_step(&self, now: CycleInstant) -> u64 {
        cycles_since_or_zero(now, self.write_record)
    }

    /// Start record.
    pub fn start_record(&mut self, now: CycleInstant)
        ensures
            *final(self) == (WriteToDbRecord { start_record: now, ..*old(self) }),
    {
        self.start_record = now;
    }

    /// Start sub record.
    pub fn start_sub_record(&mut self, now: CycleInstant)
        ensures
            *final(self) == (WriteToDbRecord { sub_record: now, ..*old(self) }),
    {
        self.sub_record = now;
    }

    /// Start the time of one single write.
    pub fn start_write_record(&mut self, now: CycleInstant)
        ensures
            *final(self) == (WriteToDbRecord { write_record: now, ..*old(self) }),
    {
        self.write_record = now;
    }

    /// Ends the current sub-step at `now`: returns its cycles and starts the
    /// next one.
    fn record_sub_time(&mut self, now: CycleInstant) -> (r: (u64, CycleInstant))
        ensures
            r == (old(self).step(now), now),
            *final(self) == (WriteToDbRecord { sub_record: now, ..*old(self) }),
    {
        let cycles = now.cycles_since_or_zero(self.sub_record);
        self.sub_record = now;
        (cycles, now)
    }

    /// Adds the cycles since `start_record` to the total.
    fn record_total_time(&mut self, now: CycleInstant)
        requires
            old(self).total + cycles_since_or_zero(now, old(self).start_record) <= u64::MAX,
        ensures
            *final(self) == (WriteToDbRecord {
                total: (old(self).total + cycles_since_or_zero(now, old(self).start_record)) as u64,
                ..*old(self)
            }),
    {
        let cycles = now.cycles_since_or_zero(self.start_record);
        self.total = self.total + cycles;
    }

    /// Record data size of write storage changes in StateReverts.
    pub fn record_revert_storage_size(&mut self, size: usize)
        requires
            old(self).revert_storage_size + size <= usize::MAX,
        ensures
            *final(self) == (WriteToDbRecord { revert_storage_size: (old(self).revert_storage_size + size) as usize, ..*old(self) }),
    {
        self.revert_storage_size = self.revert_storage_size + size;
    }

    /// Record data size of write account changes in StateReverts.
    pub fn record_revert_account_size(&mut self, size: usize)
        requires
            old(self).revert_account_size + size <= usize::MAX,
        ensures
            *final(self) == (WriteToDbRecord { revert_account_size: (old(self).revert_account_size + size) as usize, ..*old(self) }),
    {
        self.revert_account_size = self.revert_account_size + size;
    }

    /// Record data size of write receipts.
    pub fn record_write_receipts_size(&mut self, size: usize)
        requires
            old(self).write_receipts_size + size <= usize::MAX,
        ensures
            *final(self) == (WriteToDbRecord { write_receipts_size: (old(self).write_receipts_size + size) as usize, ..*old(self) }),
    {
        self.write_receipts_size = self.write_receipts_size + size;
    }

    /// Record data size of write account in StateChanges.
    pub fn record_state_account_size(&mut self, size: usize)
        requires
            old(self).state_account_size + size <= usize::MAX,
        ensures
            *final(self) == (WriteToDbRecord { state_account_size: (old(self).state_account_size + size) as usize, ..*old(self) }),
    {
        self.state_account_size = self.state_account_size + size;
    }

    /// Record data size of write bytecode in StateChanges.
    pub fn record_state_bytecode_size(&mut self, size: usize)
        requires
            old(self).state_bytecode_size + size <= usize::MAX,
        ensures
            *final(self) == (WriteToDbRecord { state_bytecode_size: (old(self).state_bytecode_size + size) as usize, ..*old(self) }),
    {
        self.state_bytecode_size = self.state_bytecode_size + size;
    }

    /// Record data size of write storage in StateChanges.
    pub fn record_state_storage_size(&mut self, size: usize)
        requires
            old(self).state_storage_size + size <= usize::MAX,
        ensures
            *final(self) == (WriteToDbRecord { state_storage_size: (old(self).state_storage_size + size) as usize, ..*old(self) }),
    {
        self.state_storage_size = self.state_storage_size + size;
    }

    /// Record time of write storage changes in StateReverts.
    pub fn record_revert_storage_time(&mut self, now: CycleInstant)
        requires
            old(self).revert_storage_time + old(self).step(now) <= u64::MAX,
        ensures
            *final(self) == (WriteToDbRecord {
                revert_storage_time: (old(self).revert_storage_time + old(self).step(now)) as u64,
                sub_record: now,
                ..*old(self)
            }),
    {
        let (cycles, _) = self.record_sub_time(now);
        self.revert_storage_time = self.revert_storage_time + cycles;
    }

    /// Record time of write account changes in StateReverts.
    pub fn record_revert_account_time(&mut self, now: CycleInstant)
        requires
            old(self).revert_account_time + old(self).step(now) <= u64::MAX,
        ensures
            *final(self) == (WriteToDbRecord {
                revert_account_time: (old(self).revert_account_time + old(self).step(now)) as u64,
                sub_record: now,
                ..*old(self)
            }),
    {
        let (cycles, _) = self.record_sub_time(now);
        self.revert_account_time = self.revert_account_time + cycles;
    }

    /// Record time of write receipts.
    pub fn record_write_receipts_time(&mut self, now: CycleInstant)
        requires
            old(self).write_receipts_time + old(self).step(now) <= u64::MAX,
        ensures
            *final(self) == (WriteToDbRecord {
                write_receipts_time: (old(self).write_receipts_time + old(self).step(now)) as u64,
                sub_record: now,
                ..*old(self)
            }),
    {
        let (cycles, _) = self.record_sub_time(now);
        self.write_receipts_time = self.write_receipts_time + cycles;
    }

    /// Record time of sort in StateChanges's write_to_db.
    pub fn record_sort_time(&mut self, now: CycleInstant)
        requires
            old(self).sort_time + old(self).step(now) <= u64::MAX,
        ensures
            *final(self) == (WriteToDbRecord {
                sort_time: (old(self).sort_time + old(self).step(now)) as u64,
                sub_record: now,
                ..*old(self)
            }),
    {
        let (cycles, _) = self.record_sub_time(now);
        self.sort_time = self.sort_time + cycles;
    }

    /// Record time of write account in StateChanges.
    pub fn record_state_account_time(&mut self, now: CycleInstant)
        requires
            old(self).state_account_time + old(self).step(now) <= u64::MAX,
        ensures
            *final(self) == (WriteToDbRecord {
                state_account_time: (old(self).state_account_time + old(self).step(now)) as u64,
                sub_record: now,
                ..*old(self)
            }),
    {
        let (cycles, _) = self.record_sub_time(now);
        self.state_account_time = self.state_account_time + cycles;
    }

    /// Record time of write bytecode in StateChanges.
    pub fn record_state_bytecode_time(&mut self, now: CycleInstant)
        requires
            old(self).state_bytecode_time + old(self).step(now) <= u64::MAX,
        ensures
            *final(self) == (WriteToDbRecord {
                state_bytecode_time: (old(self).state_bytecode_time + old(self).step(now)) as u64,
                sub_record: now,
                ..*old(self)
            }),
    {
        let (cycles, _) = self.record_sub_time(now);
        self.state_bytecode_time = self.state_bytecode_time + cycles;
    }

    /// Record time of write storage in StateChanges, the last sub-step: the
    /// cycles since `start_record` are added to the total.
    pub fn record_state_storage_time(&mut self, now: CycleInstant)
        requires
            old(self).state_storage_time + old(self).step(now) <= u64::MAX,
            old(self).total + cycles_since_or_zero(now, old(self).start_record) <= u64::MAX,
        ensures
            *final(self) == (WriteToDbRecord {
                state_storage_time: (old(self).state_storage_time + old(self).step(now)) as u64,
                total: (old(self).total + cycles_since_or_zero(now, old(self).start_record)) as u64,
                sub_record: now,
                ..*old(self)
            }),
    {
        let (cycles, now) = self.record_sub_time(now);
        self.state_storage_time = self.state_storage_time + cycles;
        self.record_total_time(now);
    }

    /// Record time of the append of storage changes in StateReverts: the cycles since the single write started.
    pub fn record_revert_storage_append_time(&mut self, now: CycleInstant)
        requires
            old(self).revert_storage_append_time + old(self).write_step(now) <= u64::MAX,
        ensures
            *final(self) == (WriteToDbRecord {
                revert_storage_append_time: (old(self).revert_storage_append_time + old(self).write_step(now)) as u64,
                ..*old(self)
            }),
    {
        let cycles = now.cycles_since_or_zero(self.write_record);
        self.revert_storage_append_time = self.revert_storage_append_time + cycles;
    }

    /// Record time of the append of account changes in StateReverts: the cycles since the single write started.
    pub fn record_revert_account_append_time(&mut self, now: CycleInstant)
        requires
            old(self).revert_account_append_time + old(self).write_step(now) <= u64::MAX,
        ensures
            *final(self) == (WriteToDbRecord {
                revert_account_append_time: (old(self).revert_account_append_time + old(self).write_step(now)) as u64,
                ..*old(self)
            }),
    {
        let cycles = now.cycles_since_or_zero(self.write_record);
        self.revert_account_append_time = self.revert_account_append_time + cycles;
    }

    /// Record time of the append of receipts: the cycles since the single write started.
    pub fn record_receipts_append_time(&mut self, now: CycleInstant)
        requires
            old(self).receipts_append_time + old(self).write_step(now) <= u64::MAX,
        ensures
            *final(self) == (WriteToDbRecord {
                receipts_append_time: (old(self).receipts_append_time + old(self).write_step(now)) as u64,
                ..*old(self)
            }),
    {
        let cycles = now.cycles_since_or_zero(self.write_record);
        self.receipts_append_time = self.receipts_append_time + cycles;
    }

    /// Record time of the upsert of accounts in StateChanges: the cycles since the single write started.
    pub fn record_state_account_upsert_time(&mut self, now: CycleInstant)
        requires
            old(self).state_account_upsert_time + old(self).write_step(now) <= u64::MAX,
        ensures
            *final(self) == (WriteToDbRecord {
                state_account_upsert_time: (old(self).state_account_upsert_time + old(self).write_step(now)) as u64,
                ..*old(self)
            }),
    {
        let cycles = now.cycles_since_or_zero(self.write_record);
        self.state_account_upsert_time = self.state_account_upsert_time + cycles;
    }

    /// Record time of the upsert of bytecodes in StateChanges: the cycles since the single write started.
    pub fn record_state_bytecode_upsert_time(&mut self, now: CycleInstant)
        requires
            old(self).state_bytecode_upsert_time + old(self).write_step(now) <= u64::MAX,
        ensures
            *final(self) == (WriteToDbRecord {
                state_bytecode_upsert_time: (old(self).state_bytecode_upsert_time + old(self).write_step(now)) as u64,
                ..*old(self)
            }),
    {
        let cycles = now.cycles_since_or_zero(self.write_record);
        self.state_bytecode_upsert_time = self.state_bytecode_upsert_time + cycles;
    }

    /// Record time of the upsert of storage in StateChanges: the cycles since the single write started.
    pub fn record_state_storage_upsert_time(&mut self, now: CycleInstant)
        requires
            old(self).state_storage_upsert_time + old(self).write_step(now) <= u64::MAX,
        ensures
            *final(self) == (WriteToDbRecord {
                state_storage_upsert_time: (old(self).state_storage_upsert_time + old(self).write_step(now)) as u64,
                ..*old(self)
            }),
    {
        let cycles = now.cycles_since_or_zero(self.write_record);
        self.state_storage_upsert_time = self.state_storage_upsert_time + cycles;
    }

    /// Return total time of write_to_db.
    pub fn total_time(&self) -> (r: u64)
        ensures
            r == self.total,
    {
        self.total
    }

    /// Return time of write storage changes in StateReverts.
    pub fn revert_storage_time(&self) -> (r: u64)
        ensures
            r == self.revert_storage_time,
    {
        self.revert_storage_time
    }

    /// Return data size of write storage changes in StateReverts.
    pub fn revert_storage_size(&self) -> (r: usize)
        ensures
            r == self.revert_storage_size,
    {
        self.revert_storage_size
    }

    /// Return time of the append of storage changes in StateReverts.
    pub fn revert_storage_append_time(&self) -> (r: u64)
        ensures
            r == self.revert_storage_append_time,
    {
        self.revert_storage_append_time
    }

    /// Return time of write account changes in StateReverts.
    pub fn revert_account_time(&self) -> (r: u64)
        ensures
            r == self.revert_account_time,
    {
        self.revert_account_time
    }

    /// Return data size of write account changes in StateReverts.
    pub fn revert_account_size(&self) -> (r: usize)
        ensures
            r == self.revert_account_size,
    {
        self.revert_account_size
    }

    /// Return time of the append of account changes in StateReverts.
    pub fn revert_account_append_time(&self) -> (r: u64)
        ensures
            r == self.revert_account_append_time,
    {
        self.revert_account_append_time
    }

    /// Return time of write receipts.
    pub fn write_receipts_time(&self) -> (r: u64)
        ensures
            r == self.write_receipts_time,
    {
        self.write_receipts_time
    }

    /// Return data size of write receipts.
    pub fn write_receipts_size(&self) -> (r: usize)
        ensures
            r == self.write_receipts_size,
    {
        self.write_receipts_size
    }

    /// Return time of the append of receipts.
    pub fn receipts_append_time(&self) -> (r: u64)
        ensures
            r == self.receipts_append_time,
    {
        self.receipts_append_time
    }

    /// Return time of sort in StateChanges's write_to_db.
    pub fn sort_time(&self) -> (r: u64)
        ensures
            r == self.sort_time,
    {
        self.sort_time
    }

    /// Return time of write account in StateChanges.
    pub fn state_account_time(&self) -> (r: u64)
        ensures
            r == self.state_account_time,
    {
        self.state_account_time
    }

    /// Return data size of write account in StateChanges.
    pub fn state_account_size(&self) -> (r: usize)
        ensures
            r == self.state_account_size,
    {
        self.state_account_size
    }

    /// Return time of the upsert of accounts in StateChanges.
    pub fn state_account_upsert_time(&self) -> (r: u64)
        ensures
            r == self.state_account_upsert_time,
    {
        self.state_account_upsert_time
    }

    /// Return time of write bytecode in StateChanges.
    pub fn state_bytecode_time(&self) -> (r: u64)
        ensures
            r == self.state_bytecode_time,
    {
        self.state_bytecode_time
    }

    /// Return data size of write bytecode in StateChanges.
    pub fn state_bytecode_size(&self) -> (r: usize)
        ensures
            r == self.state_bytecode_size,
    {
        self.state_bytecode_size
    }

    /// Return time of the upsert of bytecodes in StateChanges.
    pub fn state_bytecode_upsert_time(&self) -> (r: u64)
        ensures
            r == self.state_bytecode_upsert_time,
    {
        self.state_bytecode_upsert_time
    }

    /// Return time of write storage in StateChanges.
    pub fn state_storage_time(&self) -> (r: u64)
        ensures
            r == self.state_storage_time,
    {
        self.state_storage_time
    }

    /// Return data size of write storage in StateChanges.
    pub fn state_storage_size(&self) -> (r: usize)
        ensures
            r == self.state_storage_size,
    {
        self.state_storage_size
    }

    /// Return time of the upsert of storage in StateChanges.
    pub fn state_storage_upsert_time(&self) -> (r: u64)
        ensures
            r == self.state_storage_upsert_time,
    {
        self.state_storage_upsert_time
    }

}

} // verus!
