//! Overheads of the parts of the execution stage's execute_inner: fetching
//! blocks, executing transactions, processing state, writing to the
//! database, and the total.
use vstd::prelude::*;

use crate::time::CycleInstant;

verus! {

/// Cycles spent in execute_inner and in each of its parts.
#[derive(Clone, Copy, Debug)]
pub struct ExecutionDurationRecord {
    /// Start of the total measurement.
    pub total_recorder: CycleInstant,
    /// Start of the current part's measurement.
    pub time_recorder: CycleInstant,
    /// Time of execute_inner.
    pub total: u64,
    /// Time of fetching blocks (reading the block's total difficulty and the block with senders).
    pub fetch_block: u64,
    /// Time of Revm execution (execute_and_verify_receipt).
    pub execution: u64,
    /// Time of processing state (state.extend).
    pub take_output_state: u64,
    /// Time of writing to the database.
    pub write_to_db: u64,
}

impl Default for ExecutionDurationRecord {
    fn default() -> (r: Self)
        ensures
            r.total_recorder.cycles == 0 && r.time_recorder.cycles == 0,
            r.total == 0 && r.fetch_block == 0 && r.execution == 0 && r.take_output_state == 0
                && r.write_to_db == 0,
    {
        ExecutionDurationRecord {
            total_recorder: CycleInstant { cycles: 0 },
            time_recorder: CycleInstant { cycles: 0 },
            total: 0,
            fetch_block: 0,
            execution: 0,
            take_output_state: 0,
            write_to_db: 0,
        }
    }
}

impl ExecutionDurationRecord {
    /// Start total time recorder.
    pub fn start_total_record(&mut self, now: CycleInstant)
        ensures
            *final(self) == (ExecutionDurationRecord { total_recorder: now, ..*old(self) }),
    {
        self.total_recorder = now;
    }

    /// Start general time recorder.
    pub fn start_time_record(&mut self, now: CycleInstant)
        ensures
            *final(self) == (ExecutionDurationRecord { time_recorder: now, ..*old(self) }),
    {
        self.time_recorder = now;
    }

    /// Add the time since the total time recorder started to the total.
    pub fn add_total_duration(&mut self, now: CycleInstant)
        requires
            now.cycles >= old(self).total_recorder.cycles,
            old(self).total + (now.cycles - old(self).total_recorder.cycles) <= u64::MAX,
        ensures
            *final(self) == (ExecutionDurationRecord {
                total: (old(self).total + (now.cycles - old(self).total_recorder.cycles)) as u64,
                ..*old(self)
            }),
    {
        let cycles = now.checked_cycles_since(self.total_recorder).unwrap();
        self.total = self.total + cycles;
    }

    /// Add the time since the general time recorder started to the time of
    /// fetching blocks (reading the block's total difficulty and the block with senders).
    pub fn add_fetch_block_duration(&mut self, now: CycleInstant)
        requires
            now.cycles >= old(self).time_recorder.cycles,
            old(self).fetch_block + (now.cycles - old(self).time_recorder.cycles) <= u64::MAX,
        ensures
            *final(self) == (ExecutionDurationRecord {
                fetch_block: (old(self).fetch_block + (now.cycles - old(self).time_recorder.cycles)) as u64,
                ..*old(self)
            }),
    {
        let cycles = now.checked_cycles_since(self.time_recorder).unwrap();
        self.fetch_block = self.fetch_block + cycles;
    }

    /// Add the time since the general time recorder started to the time of
    /// Revm execution (execute_and_verify_receipt).
    pub fn add_execute_tx_duration(&mut self, now: CycleInstant)
        requires
            now.cycles >= old(self).time_recorder.cycles,
            old(self).execution + (now.cycles - old(self).time_recorder.cycles) <= u64::MAX,
        ensures
            *final(self) == (ExecutionDurationRecord {
                execution: (old(self).execution + (now.cycles - old(self).time_recorder.cycles)) as u64,
                ..*old(self)
            }),
    {
        let cycles = now.checked_cycles_since(self.time_recorder).unwrap();
        self.execution = self.execution + cycles;
    }

    /// Add the time since the general time recorder started to the time of
    /// processing state (state.extend).
    pub fn add_take_output_state_duration(&mut self, now: CycleInstant)
        requires
            now.cycles >= old(self).time_recorder.cycles,
            old(self).take_output_state + (now.cycles - old(self).time_recorder.cycles) <= u64::MAX,
        ensures
            *final(self) == (ExecutionDurationRecord {
                take_output_state: (old(self).take_output_state + (now.cycles - old(self).time_recorder.cycles)) as u64,
                ..*old(self)
            }),
    {
        let cycles = now.checked_cycles_since(self.time_recorder).unwrap();
        self.take_output_state = self.take_output_state + cycles;
    }

    /// Add the time since the general time recorder started to the time of
    /// writing to the database.
    pub fn add_write_to_db_duration(&mut self, now: CycleInstant)
        requires
            now.cycles >= old(self).time_recorder.cycles,
            old(self).write_to_db + (now.cycles - old(self).time_recorder.cycles) <= u64::MAX,
        ensures
            *final(self) == (ExecutionDurationRecord {
                write_to_db: (old(self).write_to_db + (now.cycles - old(self).time_recorder.cycles)) as u64,
                ..*old(self)
            }),
    {
        let cycles = now.checked_cycles_since(self.time_recorder).unwrap();
        self.write_to_db = self.write_to_db + cycles;
    }

    /// Return the overhead of execute_inner.
    pub fn total(&self) -> (r: u64)
        ensures
            r == self.total,
    {
        self.total
    }

    /// Return the overhead of fetching blocks (reading the block's total difficulty and the block with senders).
    pub fn fetch_block(&self) -> (r: u64)
        ensures
            r == self.fetch_block,
    {
        self.fetch_block
    }

    /// Return the overhead of Revm execution (execute_and_verify_receipt).
    pub fn execution(&self) -> (r: u64)
        ensures
            r == self.execution,
    {
        self.execution
    }

    /// Return the overhead of processing state (state.extend).
    pub fn take_output_state(&self) -> (r: u64)
        ensures
            r == self.take_output_state,
    {
        self.take_output_state
    }

    /// Return the overhead of writing to the database.
    pub fn write_to_db(&self) -> (r: u64)
        ensures
            r == self.write_to_db,
    {
        self.write_to_db
    }

    /// Return the overhead of everything else: the total less the parts.
    pub fn misc(&self) -> (r: u64)
        requires
            self.fetch_block + self.execution + self.take_output_state + self.write_to_db
                <= self.total,
        ensures
            r == self.total - self.fetch_block - self.execution - self.take_output_state
                - self.write_to_db,
    {
        self.total - self.fetch_block - self.execution - self.take_output_state - self.write_to_db
    }
}

} // verus!
