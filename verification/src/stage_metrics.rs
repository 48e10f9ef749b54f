//! Counters and accumulated times of the execution stage, read with the
//! minstant clock, and of its database reads and writes; both can be summed
//! over runs and corrected for the cost of reading the clock.
use vstd::prelude::*;

use crate::time::{Duration, MAX_DURATION_NANOS};

verus! {

/// The clock reading type of the minstant crate, carried through unopened.
#[verifier::external_type_specification]
#[verifier::external_body]
pub struct ExMinstantInstant(minstant::Instant);

/// Reads the clock with `minstant::Instant::now`. Nothing is claimed of the
/// reading: it depends on the time.
#[verifier::external_body]
pub(crate) fn instant_now() -> (r: minstant::Instant) {
    minstant::Instant::now()
}

/// The time since `start`, in nanoseconds, from `minstant::Instant::elapsed`.
/// That function returns a `Duration` made from a whole number of
/// nanoseconds held in a `u64`, so the value fits; which value comes back
/// depends on the time and is not claimed.
#[verifier::external_body]
pub(crate) fn elapsed_nanos(start: &minstant::Instant) -> (r: u64) {
    start.elapsed().as_nanos() as u64
}

/// Cycles of reading the clock once, in nanoseconds.
pub const RDTSC_OVERHEAD: u64 = 7;

/// A counter and an accumulated time.
pub type CountAndTime = (u64, Duration);

/// Counts one more measurement of `elapsed` in `slot`.
pub fn count_elapsed(slot: CountAndTime, elapsed: Duration) -> (r: CountAndTime)
    requires
        slot.0 < u64::MAX,
        slot.1@ + elapsed@ <= MAX_DURATION_NANOS,
    ensures
        r.0 == slot.0 + 1,
        r.1@ == slot.1@ + elapsed@,
{
    let sum = slot.1.checked_add(elapsed);
    match sum {
        Some(d) => (slot.0 + 1, d),
        None => (slot.0 + 1, slot.1),
    }
}

/// What adding a clock measurement to `slot` needs: the counter can grow,
/// and any time a `u64` of nanoseconds can hold fits in the sum.
pub open spec fn can_count(slot: CountAndTime) -> bool {
    &&& slot.0 < u64::MAX
    &&& slot.1@ + u64::MAX <= MAX_DURATION_NANOS
}

/// `slot` after one more measurement of some time that a `u64` of
/// nanoseconds holds.
pub open spec fn counted_once(before: CountAndTime, after: CountAndTime) -> bool {
    &&& after.0 == before.0 + 1
    &&& before.1@ <= after.1@ <= before.1@ + u64::MAX
}

/// The sum of two slots.
pub open spec fn slot_sum(a: CountAndTime, b: CountAndTime) -> (int, nat) {
    (a.0 + b.0, a.1@ + b.1@)
}

/// Adds two accumulated times.
fn sum_time(a: Duration, b: Duration) -> (r: Duration)
    requires
        a@ + b@ <= MAX_DURATION_NANOS,
    ensures
        r@ == a@ + b@,
{
    match a.checked_add(b) {
        Some(d) => d,
        None => a,
    }
}

/// The time of `slot` less the cost of reading the clock for each of its
/// measurements.
pub open spec fn pure_time(slot: CountAndTime) -> int {
    slot.1@ - slot.0 * RDTSC_OVERHEAD
}

/// What correcting `slot` needs: the correction fits in a `u64` and does
/// not exceed the time.
pub open spec fn can_correct(slot: CountAndTime) -> bool {
    &&& slot.0 * RDTSC_OVERHEAD <= u64::MAX
    &&& slot.0 * RDTSC_OVERHEAD <= slot.1@
}

/// The time of `slot` less the cost of reading the clock for each
/// measurement.
fn corrected(slot: CountAndTime) -> (r: Duration)
    requires
        can_correct(slot),
    ensures
        r@ == pure_time(slot),
{
    let overhead: u64 = slot.0 * RDTSC_OVERHEAD;
    match slot.1.checked_sub(Duration::from_nanos(overhead)) {
        Some(d) => d,
        None => slot.1,
    }
}

/// Time and number of measurements of each part of the execution stage.
#[derive(Clone, Copy, Debug)]
pub struct ExecutionDurationRecord {
    /// Start of the current execute_inner.
    pub inner_recorder: minstant::Instant,
    /// Start of the current part.
    pub time_recorder: minstant::Instant,
    /// (count, total time) of execute_inner.
    pub execute_inner: CountAndTime,
    /// (count, total time) of reading the block's total difficulty and the block with senders.
    pub read_block: CountAndTime,
    /// (count, total time) of Revm executing transactions (execute_and_verify_receipt).
    pub execute_tx: CountAndTime,
    /// (count, total time) of processing state (state.extend).
    pub process_state: CountAndTime,
    /// (count, total time) of writing to the database.
    pub write_to_db: CountAndTime,
}

/// The five slots of a record, in order.
pub open spec fn slots(r: ExecutionDurationRecord) -> (CountAndTime, CountAndTime, CountAndTime, CountAndTime, CountAndTime) {
    (r.execute_inner, r.read_block, r.execute_tx, r.process_state, r.write_to_db)
}

/// Whether slot `s` holds no measurement.
pub open spec fn empty_slot(s: CountAndTime) -> bool {
    s.0 == 0 && s.1@ == 0
}

impl Default for ExecutionDurationRecord {
    /// No measurements; both clocks start now.
    fn default() -> (r: Self)
        ensures
            empty_slot(r.execute_inner),
            empty_slot(r.read_block),
            empty_slot(r.execute_tx),
            empty_slot(r.process_state),
            empty_slot(r.write_to_db),
    {
        ExecutionDurationRecord {
            inner_recorder: instant_now(),
            time_recorder: instant_now(),
            execute_inner: (0, Duration::zero()),
            read_block: (0, Duration::zero()),
            execute_tx: (0, Duration::zero()),
            process_state: (0, Duration::zero()),
            write_to_db: (0, Duration::zero()),
        }
    }
}

impl ExecutionDurationRecord {
    /// Starts the clock of execute_inner: its start becomes a reading of
    /// the clock taken now, which depends on the time and is not claimed.
    pub fn start_inner_time_recorder(&mut self)
        ensures
            slots(*final(self)) == slots(*old(self)),
            final(self).time_recorder == old(self).time_recorder,
    {
        self.inner_recorder = instant_now();
    }

    /// Starts the clock of a part: its start becomes a reading of the clock
    /// taken now, which depends on the time and is not claimed.
    pub fn start_time_recorder(&mut self)
        ensures
            slots(*final(self)) == slots(*old(self)),
            final(self).inner_recorder == old(self).inner_recorder,
    {
        self.time_recorder = instant_now();
    }

    /// Counts one more execute_inner, with the time since its clock started.
    pub fn add_execute_inner(&mut self)
        requires
            can_count(old(self).execute_inner),
        ensures
            counted_once(old(self).execute_inner, final(self).execute_inner),
            final(self).read_block == old(self).read_block,
            final(self).execute_tx == old(self).execute_tx,
            final(self).process_state == old(self).process_state,
            final(self).write_to_db == old(self).write_to_db,
            final(self).inner_recorder == old(self).inner_recorder,
            final(self).time_recorder == old(self).time_recorder,
    {
        let elapsed = Duration::from_nanos(elapsed_nanos(&self.inner_recorder));
        self.execute_inner = count_elapsed(self.execute_inner, elapsed);
    }

    /// Counts one more reading the block's total difficulty and the block with senders, with the time since its clock started.
    pub fn add_read_block(&mut self)
        requires
            can_count(old(self).read_block),
        ensures
            counted_once(old(self).read_block, final(self).read_block),
            final(self).execute_inner == old(self).execute_inner,
            final(self).execute_tx == old(self).execute_tx,
            final(self).process_state == old(self).process_state,
            final(self).write_to_db == old(self).write_to_db,
            final(self).inner_recorder == old(self).inner_recorder,
            final(self).time_recorder == old(self).time_recorder,
    {
        let elapsed = Duration::from_nanos(elapsed_nanos(&self.time_recorder));
        self.read_block = count_elapsed(self.read_block, elapsed);
    }

    /// Counts one more Revm executing transactions, with the time since its clock started.
    pub fn add_execute_tx(&mut self)
        requires
            can_count(old(self).execute_tx),
        ensures
            counted_once(old(self).execute_tx, final(self).execute_tx),
            final(self).execute_inner == old(self).execute_inner,
            final(self).read_block == old(self).read_block,
            final(self).process_state == old(self).process_state,
            final(self).write_to_db == old(self).write_to_db,
            final(self).inner_recorder == old(self).inner_recorder,
            final(self).time_recorder == old(self).time_recorder,
    {
        let elapsed = Duration::from_nanos(elapsed_nanos(&self.time_recorder));
        self.execute_tx = count_elapsed(self.execute_tx, elapsed);
    }

    /// Counts one more processing state, with the time since its clock started.
    pub fn add_process_state(&mut self)
        requires
            can_count(old(self).process_state),
        ensures
            counted_once(old(self).process_state, final(self).process_state),
            final(self).execute_inner == old(self).execute_inner,
            final(self).read_block == old(self).read_block,
            final(self).execute_tx == old(self).execute_tx,
            final(self).write_to_db == old(self).write_to_db,
            final(self).inner_recorder == old(self).inner_recorder,
            final(self).time_recorder == old(self).time_recorder,
    {
        let elapsed = Duration::from_nanos(elapsed_nanos(&self.time_recorder));
        self.process_state = count_elapsed(self.process_state, elapsed);
    }

    /// Counts one more writing to the database, with the time since its clock started.
    pub fn add_write_to_db(&mut self)
        requires
            can_count(old(self).write_to_db),
        ensures
            counted_once(old(self).write_to_db, final(self).write_to_db),
            final(self).execute_inner == old(self).execute_inner,
            final(self).read_block == old(self).read_block,
            final(self).execute_tx == old(self).execute_tx,
            final(self).process_state == old(self).process_state,
            final(self).inner_recorder == old(self).inner_recorder,
            final(self).time_recorder == old(self).time_recorder,
    {
        let elapsed = Duration::from_nanos(elapsed_nanos(&self.time_recorder));
        self.write_to_db = count_elapsed(self.write_to_db, elapsed);
    }

    /// Adds the counts and times of `other`, slot by slot.
    pub fn add(&mut self, other: ExecutionDurationRecord)
        requires
            old(self).execute_inner.0 + other.execute_inner.0 <= u64::MAX,
            old(self).read_block.0 + other.read_block.0 <= u64::MAX,
            old(self).execute_tx.0 + other.execute_tx.0 <= u64::MAX,
            old(self).process_state.0 + other.process_state.0 <= u64::MAX,
            old(self).write_to_db.0 + other.write_to_db.0 <= u64::MAX,
            old(self).execute_inner.1@ + other.execute_inner.1@ <= MAX_DURATION_NANOS,
            old(self).read_block.1@ + other.read_block.1@ <= MAX_DURATION_NANOS,
            old(self).execute_tx.1@ + other.execute_tx.1@ <= MAX_DURATION_NANOS,
            old(self).process_state.1@ + other.process_state.1@ <= MAX_DURATION_NANOS,
            old(self).write_to_db.1@ + other.write_to_db.1@ <= MAX_DURATION_NANOS,
        ensures
            (final(self).execute_inner.0 as int, final(self).execute_inner.1@) == slot_sum(old(self).execute_inner, other.execute_inner),
            (final(self).read_block.0 as int, final(self).read_block.1@) == slot_sum(old(self).read_block, other.read_block),
            (final(self).execute_tx.0 as int, final(self).execute_tx.1@) == slot_sum(old(self).execute_tx, other.execute_tx),
            (final(self).process_state.0 as int, final(self).process_state.1@) == slot_sum(old(self).process_state, other.process_state),
            (final(self).write_to_db.0 as int, final(self).write_to_db.1@) == slot_sum(old(self).write_to_db, other.write_to_db),
            final(self).inner_recorder == old(self).inner_recorder,
            final(self).time_recorder == old(self).time_recorder,
    {
        self.execute_inner = (
            self.execute_inner.0 + other.execute_inner.0,
            sum_time(self.execute_inner.1, other.execute_inner.1),
        );
        self.read_block = (
            self.read_block.0 + other.read_block.0,
            sum_time(self.read_block.1, other.read_block.1),
        );
        self.execute_tx = (
            self.execute_tx.0 + other.execute_tx.0,
            sum_time(self.execute_tx.1, other.execute_tx.1),
        );
        self.process_state = (
            self.process_state.0 + other.process_state.0,
            sum_time(self.process_state.1, other.process_state.1),
        );
        self.write_to_db = (
            self.write_to_db.0 + other.write_to_db.0,
            sum_time(self.write_to_db.1, other.write_to_db.1),
        );
    }

    /// The record with each time less the cost of reading the clock for each
    /// of its measurements; the counts stay, the clocks start now.
    pub fn pure_record(&self) -> (r: Self)
        requires
            can_correct(self.execute_inner),
            can_correct(self.read_block),
            can_correct(self.execute_tx),
            can_correct(self.process_state),
            can_correct(self.write_to_db),
        ensures
            r.execute_inner.0 == self.execute_inner.0 && r.execute_inner.1@ == pure_time(self.execute_inner),
            r.read_block.0 == self.read_block.0 && r.read_block.1@ == pure_time(self.read_block),
            r.execute_tx.0 == self.execute_tx.0 && r.execute_tx.1@ == pure_time(self.execute_tx),
            r.process_state.0 == self.process_state.0 && r.process_state.1@ == pure_time(self.process_state),
            r.write_to_db.0 == self.write_to_db.0 && r.write_to_db.1@ == pure_time(self.write_to_db),
    {
        let mut ret = ExecutionDurationRecord::default();
        ret.execute_inner = (self.execute_inner.0, corrected(self.execute_inner));
        ret.read_block = (self.read_block.0, corrected(self.read_block));
        ret.execute_tx = (self.execute_tx.0, corrected(self.execute_tx));
        ret.process_state = (self.process_state.0, corrected(self.process_state));
        ret.write_to_db = (self.write_to_db.0, corrected(self.write_to_db));
        ret
    }
}

/// Time and data size of the database reads and writes of the execution stage.
#[derive(Clone, Copy, Debug)]
pub struct DbSpeedRecord {
    /// (count, time) of reading header total difficulties.
    pub read_header_td_db_time: CountAndTime,
    /// Bytes of header total difficulties read.
    pub read_header_td_db_size: u64,
    /// (count, time) of reading blocks with senders.
    pub read_block_with_senders_db_time: CountAndTime,
    /// Bytes of blocks with senders read.
    pub read_block_with_senders_db_size: u64,
    /// (count, time) of writing to the database.
    pub write_to_db_time: CountAndTime,
    /// Bytes written to the database.
    pub write_to_db_size: u64,
}

impl Default for DbSpeedRecord {
    fn default() -> (r: Self)
        ensures
            empty_slot(r.read_header_td_db_time),
            empty_slot(r.read_block_with_senders_db_time),
            empty_slot(r.write_to_db_time),
            r.read_header_td_db_size == 0,
            r.read_block_with_senders_db_size == 0,
            r.write_to_db_size == 0,
    {
        DbSpeedRecord {
            read_header_td_db_time: (0, Duration::zero()),
            read_header_td_db_size: 0,
            read_block_with_senders_db_time: (0, Duration::zero()),
            read_block_with_senders_db_size: 0,
            write_to_db_time: (0, Duration::zero()),
            write_to_db_size: 0,
        }
    }
}

impl DbSpeedRecord {
    /// Adds `get_time_count` reads of header total difficulties taking `add_time`.
    pub fn add_read_header_td_db_time(&mut self, add_time: Duration, get_time_count: u64)
        requires
            old(self).read_header_td_db_time.0 + get_time_count <= u64::MAX,
            old(self).read_header_td_db_time.1@ + add_time@ <= MAX_DURATION_NANOS,
        ensures
            final(self).read_header_td_db_time.0 == old(self).read_header_td_db_time.0 + get_time_count,
            final(self).read_header_td_db_time.1@ == old(self).read_header_td_db_time.1@ + add_time@,
            *final(self) == (DbSpeedRecord { read_header_td_db_time: final(self).read_header_td_db_time, ..*old(self) }),
    {
        self.read_header_td_db_time = (
            self.read_header_td_db_time.0 + get_time_count,
            sum_time(self.read_header_td_db_time.1, add_time),
        );
    }

    /// Adds `add_size` bytes of header total difficulties read.
    pub fn add_read_header_td_db_size(&mut self, add_size: u64)
        requires
            old(self).read_header_td_db_size + add_size <= u64::MAX,
        ensures
            *final(self) == (DbSpeedRecord {
                read_header_td_db_size: (old(self).read_header_td_db_size + add_size) as u64,
                ..*old(self)
            }),
    {
        self.read_header_td_db_size = self.read_header_td_db_size + add_size;
    }

    /// Adds `get_time_count` reads of blocks with senders taking `add_time`.
    pub fn add_read_block_with_senders_db_time(&mut self, add_time: Duration, get_time_count: u64)
        requires
            old(self).read_block_with_senders_db_time.0 + get_time_count <= u64::MAX,
            old(self).read_block_with_senders_db_time.1@ + add_time@ <= MAX_DURATION_NANOS,
        ensures
            final(self).read_block_with_senders_db_time.0 == old(self).read_block_with_senders_db_time.0
                + get_time_count,
            final(self).read_block_with_senders_db_time.1@ == old(self).read_block_with_senders_db_time.1@
                + add_time@,
            *final(self) == (DbSpeedRecord {
                read_block_with_senders_db_time: final(self).read_block_with_senders_db_time,
                ..*old(self)
            }),
    {
        self.read_block_with_senders_db_time = (
            self.read_block_with_senders_db_time.0 + get_time_count,
            sum_time(self.read_block_with_senders_db_time.1, add_time),
        );
    }

    /// Adds `add_size` bytes of blocks with senders read.
    pub fn add_read_block_with_senders_db_size(&mut self, add_size: u64)
        requires
            old(self).read_block_with_senders_db_size + add_size <= u64::MAX,
        ensures
            *final(self) == (DbSpeedRecord {
                read_block_with_senders_db_size: (old(self).read_block_with_senders_db_size + add_size) as u64,
                ..*old(self)
            }),
    {
        self.read_block_with_senders_db_size = self.read_block_with_senders_db_size + add_size;
    }

    /// Adds `get_time_count` writes to the database taking `add_time`.
    pub fn add_write_to_db_time(&mut self, add_time: Duration, get_time_count: u64)
        requires
            old(self).write_to_db_time.0 + get_time_count <= u64::MAX,
            old(self).write_to_db_time.1@ + add_time@ <= MAX_DURATION_NANOS,
        ensures
            final(self).write_to_db_time.0 == old(self).write_to_db_time.0 + get_time_count,
            final(self).write_to_db_time.1@ == old(self).write_to_db_time.1@ + add_time@,
            *final(self) == (DbSpeedRecord { write_to_db_time: final(self).write_to_db_time, ..*old(self) }),
    {
        self.write_to_db_time = (
            self.write_to_db_time.0 + get_time_count,
            sum_time(self.write_to_db_time.1, add_time),
        );
    }

    /// Adds `add_size` bytes written to the database.
    pub fn add_write_to_db_size(&mut self, add_size: u64)
        requires
            old(self).write_to_db_size + add_size <= u64::MAX,
        ensures
            *final(self) == (DbSpeedRecord {
                write_to_db_size: (old(self).write_to_db_size + add_size) as u64,
                ..*old(self)
            }),
    {
        self.write_to_db_size = self.write_to_db_size + add_size;
    }

    /// Adds the counts, times and sizes of `other`.
    pub fn add(&mut self, other: Self)
        requires
            old(self).read_header_td_db_time.0 + other.read_header_td_db_time.0 <= u64::MAX,
            old(self).read_header_td_db_time.1@ + other.read_header_td_db_time.1@ <= MAX_DURATION_NANOS,
            old(self).read_header_td_db_size + other.read_header_td_db_size <= u64::MAX,
            old(self).read_block_with_senders_db_time.0 + other.read_block_with_senders_db_time.0 <= u64::MAX,
            old(self).read_block_with_senders_db_time.1@ + other.read_block_with_senders_db_time.1@
                <= MAX_DURATION_NANOS,
            old(self).read_block_with_senders_db_size + other.read_block_with_senders_db_size <= u64::MAX,
            old(self).write_to_db_time.0 + other.write_to_db_time.0 <= u64::MAX,
            old(self).write_to_db_time.1@ + other.write_to_db_time.1@ <= MAX_DURATION_NANOS,
            old(self).write_to_db_size + other.write_to_db_size <= u64::MAX,
        ensures
            (final(self).read_header_td_db_time.0 as int, final(self).read_header_td_db_time.1@)
                == slot_sum(old(self).read_header_td_db_time, other.read_header_td_db_time),
            final(self).read_header_td_db_size == old(self).read_header_td_db_size + other.read_header_td_db_size,
            (final(self).read_block_with_senders_db_time.0 as int, final(self).read_block_with_senders_db_time.1@)
                == slot_sum(old(self).read_block_with_senders_db_time, other.read_block_with_senders_db_time),
            final(self).read_block_with_senders_db_size == old(self).read_block_with_senders_db_size
                + other.read_block_with_senders_db_size,
            (final(self).write_to_db_time.0 as int, final(self).write_to_db_time.1@)
                == slot_sum(old(self).write_to_db_time, other.write_to_db_time),
            final(self).write_to_db_size == old(self).write_to_db_size + other.write_to_db_size,
    {
        self.read_header_td_db_time = (
            self.read_header_td_db_time.0 + other.read_header_td_db_time.0,
            sum_time(self.read_header_td_db_time.1, other.read_header_td_db_time.1),
        );
        self.read_header_td_db_size = self.read_header_td_db_size + other.read_header_td_db_size;
        self.read_block_with_senders_db_time = (
            self.read_block_with_senders_db_time.0 + other.read_block_with_senders_db_time.0,
            sum_time(self.read_block_with_senders_db_time.1, other.read_block_with_senders_db_time.1),
        );
        self.read_block_with_senders_db_size = self.read_block_with_senders_db_size
            + other.read_block_with_senders_db_size;
        self.write_to_db_time = (
            self.write_to_db_time.0 + other.write_to_db_time.0,
            sum_time(self.write_to_db_time.1, other.write_to_db_time.1),
        );
        self.write_to_db_size = self.write_to_db_size + other.write_to_db_size;
    }

    /// The record with each time less the cost of reading the clock for each
    /// of its measurements; counts and sizes stay.
    pub fn pure_record(&self) -> (r: Self)
        requires
            can_correct(self.read_header_td_db_time),
            can_correct(self.read_block_with_senders_db_time),
            can_correct(self.write_to_db_time),
        ensures
            r.read_header_td_db_time.0 == self.read_header_td_db_time.0,
            r.read_header_td_db_time.1@ == pure_time(self.read_header_td_db_time),
            r.read_block_with_senders_db_time.0 == self.read_block_with_senders_db_time.0,
            r.read_block_with_senders_db_time.1@ == pure_time(self.read_block_with_senders_db_time),
            r.write_to_db_time.0 == self.write_to_db_time.0,
            r.write_to_db_time.1@ == pure_time(self.write_to_db_time),
            r.read_header_td_db_size == self.read_header_td_db_size,
            r.read_block_with_senders_db_size == self.read_block_with_senders_db_size,
            r.write_to_db_size == self.write_to_db_size,
    {
        let mut ret = *self;
        ret.read_header_td_db_time = (self.read_header_td_db_time.0, corrected(self.read_header_td_db_time));
        ret.read_block_with_senders_db_time = (
            self.read_block_with_senders_db_time.0,
            corrected(self.read_block_with_senders_db_time),
        );
        ret.write_to_db_time = (self.write_to_db_time.0, corrected(self.write_to_db_time));
        ret
    }
}

/// The corrected time of a slot is its time less 7 ns per measurement.
pub proof fn lemma_pure_time(slot: CountAndTime)
    requires
        can_correct(slot),
    ensures
        pure_time(slot) + slot.0 * 7 == slot.1@,
        0 <= pure_time(slot) <= slot.1@,
{
}

/// Summing slots adds counts and times.
pub proof fn lemma_slot_sum(a: CountAndTime, b: CountAndTime)
    ensures
        slot_sum(a, b).0 == a.0 + b.0,
        slot_sum(a, b).1 == a.1@ + b.1@,
{
}

} // verus!
