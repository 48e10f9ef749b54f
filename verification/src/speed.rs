//! Amount and time of the database reads and writes of execute_inner:
//! reading header total difficulty, reading blocks with senders, and
//! writing to the database.
use vstd::prelude::*;

use crate::time::{Duration, MAX_DURATION_NANOS};

verus! {

/// Bytes read or written and time spent, for the database operations of
/// execute_inner.
#[derive(Clone, Copy, Debug)]
pub struct DatabaseOperationRecord {
    /// Time of read header td from db.
    pub header_td_time: Duration,
    /// Data size of read header td from db.
    pub header_td_size: usize,
    /// Time of read block with senders from db.
    pub block_with_senders_time: Duration,
    /// Data size of read block with senders from db.
    pub block_with_senders_size: usize,
    /// Time of write to db.
    pub write_to_db_time: Duration,
    /// Data size of write to db.
    pub write_to_db_size: usize,
}

impl Default for DatabaseOperationRecord {
    fn default() -> (r: Self)
        ensures
            r.header_td_time@ == 0 && r.header_td_size == 0,
            r.block_with_senders_time@ == 0 && r.block_with_senders_size == 0,
            r.write_to_db_time@ == 0 && r.write_to_db_size == 0,
    {
        DatabaseOperationRecord {
            header_td_time: Duration::zero(),
            header_td_size: 0,
            block_with_senders_time: Duration::zero(),
            block_with_senders_size: 0,
            write_to_db_time: Duration::zero(),
            write_to_db_size: 0,
        }
    }
}

impl DatabaseOperationRecord {
    /// Add a read header td: `size` bytes in `time`.
    pub fn header_td_record(&mut self, size: usize, time: Duration)
        requires
            old(self).header_td_size + size <= usize::MAX,
            old(self).header_td_time@ + time@ <= MAX_DURATION_NANOS,
        ensures
            final(self).header_td_size == old(self).header_td_size + size,
            final(self).header_td_time@ == old(self).header_td_time@ + time@,
            *final(self) == (DatabaseOperationRecord {
                header_td_size: final(self).header_td_size,
                header_td_time: final(self).header_td_time,
                ..*old(self)
            }),
    {
        self.header_td_size = self.header_td_size + size;
        self.header_td_time = self.header_td_time.checked_add(time).unwrap();
    }

    /// Data size and time of read header td.
    pub fn header_td_info(&self) -> (r: (usize, Duration))
        ensures
            r == (self.header_td_size, self.header_td_time),
    {
        (self.header_td_size, self.header_td_time)
    }

    /// Add a read block with senders: `size` bytes in `time`.
    pub fn block_with_senders_record(&mut self, size: usize, time: Duration)
        requires
            old(self).block_with_senders_size + size <= usize::MAX,
            old(self).block_with_senders_time@ + time@ <= MAX_DURATION_NANOS,
        ensures
            final(self).block_with_senders_size == old(self).block_with_senders_size + size,
            final(self).block_with_senders_time@ == old(self).block_with_senders_time@ + time@,
            *final(self) == (DatabaseOperationRecord {
                block_with_senders_size: final(self).block_with_senders_size,
                block_with_senders_time: final(self).block_with_senders_time,
                ..*old(self)
            }),
    {
        self.block_with_senders_size = self.block_with_senders_size + size;
        self.block_with_senders_time = self.block_with_senders_time.checked_add(time).unwrap();
    }

    /// Data size and time of read block with senders.
    pub fn block_with_senders_info(&self) -> (r: (usize, Duration))
        ensures
            r == (self.block_with_senders_size, self.block_with_senders_time),
    {
        (self.block_with_senders_size, self.block_with_senders_time)
    }

    /// Add a write to db: `size` bytes in `time`.
    pub fn write_to_db_record(&mut self, size: usize, time: Duration)
        requires
            old(self).write_to_db_size + size <= usize::MAX,
            old(self).write_to_db_time@ + time@ <= MAX_DURATION_NANOS,
        ensures
            final(self).write_to_db_size == old(self).write_to_db_size + size,
            final(self).write_to_db_time@ == old(self).write_to_db_time@ + time@,
            *final(self) == (DatabaseOperationRecord {
                write_to_db_size: final(self).write_to_db_size,
                write_to_db_time: final(self).write_to_db_time,
                ..*old(self)
            }),
    {
        self.write_to_db_size = self.write_to_db_size + size;
        self.write_to_db_time = self.write_to_db_time.checked_add(time).unwrap();
    }

    /// Data size and time of write to db.
    pub fn write_to_db_info(&self) -> (r: (usize, Duration))
        ensures
            r == (self.write_to_db_size, self.write_to_db_time),
    {
        (self.write_to_db_size, self.write_to_db_time)
    }

}

} // verus!
