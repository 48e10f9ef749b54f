//! Bytes and time of the database reads and writes of a measured run. The
//! recorder counts only between `start_db_record` and the end of the run:
//! before it starts, reads and writes are not counted.
use vstd::prelude::*;

use crate::time::{Duration, MAX_DURATION_NANOS, NANOS_PER_SEC};

verus! {

/// The clock type of std, carried through unopened.
#[verifier::external_type_specification]
#[verifier::external_body]
pub struct ExStdInstant(std::time::Instant);

/// Reads the clock with `std::time::Instant::now`. Nothing is claimed of
/// the reading: it depends on the time.
#[verifier::external_body]
fn std_instant_now() -> (r: std::time::Instant) {
    std::time::Instant::now()
}

/// The time since `start`, from `std::time::Instant::elapsed`, as whole
/// seconds and the nanoseconds past them. std documents that the
/// nanoseconds past the seconds (`subsec_nanos`) are less than one second;
/// which time comes back depends on the clock and is not claimed.
#[verifier::external_body]
fn std_elapsed(start: &std::time::Instant) -> (r: (u64, u32))
    ensures
        r.1 < NANOS_PER_SEC,
{
    let d = start.elapsed();
    (d.as_secs(), d.subsec_nanos())
}

/// Bytes and time of reads and writes.
#[derive(Clone, Copy, Debug)]
pub struct MetricRecoder {
    pub read_size: usize,
    pub read_time: Duration,
    pub write_size: usize,
    pub write_time: Duration,
}

/// The recorder: no record until the measurement starts.
#[derive(Clone, Copy, Debug)]
pub struct DbMetricRecorder {
    pub record: Option<MetricRecoder>,
}

impl DbMetricRecorder {
    /// A recorder that has not started.
    pub fn new() -> (r: Self)
        ensures
            r.record is None,
    {
        DbMetricRecorder { record: None }
    }
}

/// A record with no bytes and no time.
pub open spec fn empty_record(m: MetricRecoder) -> bool {
    m.read_size == 0 && m.read_time@ == 0 && m.write_size == 0 && m.write_time@ == 0
}

/// The recorder as plain numbers: (read bytes, read time, written bytes,
/// write time), or `None` before the measurement starts.
pub open spec fn record_view(rec: DbMetricRecorder) -> Option<(int, nat, int, nat)> {
    match rec.record {
        Some(m) => Some((m.read_size as int, m.read_time@, m.write_size as int, m.write_time@)),
        None => None,
    }
}

/// The recorder `v` after a write of `size` bytes taking `time`: counted
/// where the measurement runs, ignored before.
pub open spec fn written(v: Option<(int, nat, int, nat)>, size: int, time: nat) -> Option<(int, nat, int, nat)> {
    match v {
        Some(m) => Some((m.0, m.1, m.2 + size, m.3 + time)),
        None => None,
    }
}

/// Writes add up: two writes count as one of their summed size and time,
/// reads stay as they were, and before the measurement starts nothing is
/// counted.
pub proof fn lemma_writes_add_up(v: Option<(int, nat, int, nat)>, s1: int, t1: nat, s2: int, t2: nat)
    ensures
        written(written(v, s1, t1), s2, t2) == written(v, s1 + s2, t1 + t2),
        v is None ==> written(v, s1, t1) is None,
        v matches Some(m) ==> written(v, s1, t1) matches Some(n) && n.0 == m.0 && n.1 == m.1,
{
}

/// Starts the measurement with an empty record, dropping any earlier one.
pub fn start_db_record(rec: &mut DbMetricRecorder)
    ensures
        final(rec).record matches Some(m) && empty_record(m),
{
    rec.record = Some(MetricRecoder {
        read_size: 0,
        read_time: Duration::zero(),
        write_size: 0,
        write_time: Duration::zero(),
    });
}

/// What adding a read of `size` bytes taking `time` needs: where the
/// measurement runs, the sums fit.
pub open spec fn read_fits(rec: DbMetricRecorder, size: usize, time: Duration) -> bool {
    rec.record matches Some(m) ==> m.read_size + size <= usize::MAX && m.read_time@ + time@ <= MAX_DURATION_NANOS
}

/// What adding a write of `size` bytes taking `time` needs: where the
/// measurement runs, the sums fit.
pub open spec fn write_fits(rec: DbMetricRecorder, size: usize, time: Duration) -> bool {
    rec.record matches Some(m) ==> m.write_size + size <= usize::MAX && m.write_time@ + time@ <= MAX_DURATION_NANOS
}

/// Adds a read of `size` bytes taking `time`; before the measurement starts,
/// nothing changes.
pub fn add_db_read_record(rec: &mut DbMetricRecorder, size: usize, time: Duration)
    requires
        read_fits(*old(rec), size, time),
    ensures
        match old(rec).record {
            None => final(rec).record is None,
            Some(m) => final(rec).record matches Some(n) && n.read_size == m.read_size + size
                && n.read_time@ == m.read_time@ + time@ && n.write_size == m.write_size
                && n.write_time@ == m.write_time@,
        },
{
    match rec.record {
        None => {},
        Some(m) => {
            let read_time = match m.read_time.checked_add(time) {
                Some(d) => d,
                None => m.read_time,
            };
            rec.record = Some(MetricRecoder { read_size: m.read_size + size, read_time, ..m });
        },
    }
}

/// Adds a write of `size` bytes taking `time`; before the measurement
/// starts, nothing changes.
pub fn add_db_write_record(rec: &mut DbMetricRecorder, size: usize, time: Duration)
    requires
        write_fits(*old(rec), size, time),
    ensures
        record_view(*final(rec)) == written(record_view(*old(rec)), size as int, time@),
        match old(rec).record {
            None => final(rec).record is None,
            Some(m) => final(rec).record matches Some(n) && n.write_size == m.write_size + size
                && n.write_time@ == m.write_time@ + time@ && n.read_size == m.read_size
                && n.read_time@ == m.read_time@,
        },
{
    match rec.record {
        None => {},
        Some(m) => {
            let write_time = match m.write_time.checked_add(time) {
                Some(d) => d,
                None => m.write_time,
            };
            rec.record = Some(MetricRecoder { write_size: m.write_size + size, write_time, ..m });
        },
    }
}

/// The bytes and time read and written: (read bytes, read time, written
/// bytes, write time), all zero before the measurement starts.
pub fn get_db_record(rec: &DbMetricRecorder) -> (r: (usize, Duration, usize, Duration))
    ensures
        match rec.record {
            None => r.0 == 0 && r.1@ == 0 && r.2 == 0 && r.3@ == 0,
            Some(m) => r.0 == m.read_size && r.1@ == m.read_time@ && r.2 == m.write_size
                && r.3@ == m.write_time@,
        },
{
    match rec.record {
        None => (0, Duration::zero(), 0, Duration::zero()),
        Some(m) => (m.read_size, m.read_time, m.write_size, m.write_time),
    }
}

/// A write in progress: its size and the clock at its start.
pub struct WriteRecord {
    pub size: usize,
    pub time: std::time::Instant,
}

impl WriteRecord {
    /// Starts measuring a write of `size` bytes now.
    pub fn new(size: usize) -> (r: Self)
        ensures
            r.size == size,
    {
        WriteRecord { size, time: std_instant_now() }
    }

    /// The time since the write started, read off the clock; which time
    /// comes back depends on the clock and is not claimed.
    pub fn elapsed(&self) -> (d: Duration) {
        let (secs, nanos) = std_elapsed(&self.time);
        assert(secs * NANOS_PER_SEC <= u64::MAX * NANOS_PER_SEC) by (nonlinear_arith)
            requires secs <= u64::MAX;
        Duration::new(secs, nanos)
    }

    /// Ends the write, which took `elapsed`: adds its size and time to the
    /// record.
    pub fn finish(self, rec: &mut DbMetricRecorder, elapsed: Duration)
        requires
            write_fits(*old(rec), self.size, elapsed),
        ensures
            record_view(*final(rec)) == written(record_view(*old(rec)), self.size as int, elapsed@),
            match old(rec).record {
                None => final(rec).record is None,
                Some(m) => final(rec).record matches Some(n) && n.write_size == m.write_size + self.size
                    && n.write_time@ == m.write_time@ + elapsed@ && n.read_size == m.read_size
                    && n.read_time@ == m.read_time@,
            },
    {
        add_db_write_record(rec, self.size, elapsed);
    }
}

/// The bytes of a read: the key counts only where the cursor moved it to a
/// new buffer, the value always.
pub open spec fn spec_read_size(key_moved: bool, key_len: usize, value_len: usize) -> int {
    (if key_moved { key_len as int } else { 0 }) + value_len
}

/// The bytes of a read: the key's length where the read moved the key to a
/// new buffer, plus the value's length.
pub fn read_size(key_moved: bool, key_len: usize, value_len: usize) -> (r: usize)
    requires
        spec_read_size(key_moved, key_len, value_len) <= usize::MAX,
    ensures
        r == spec_read_size(key_moved, key_len, value_len),
{
    let key_size = if key_moved { key_len } else { 0 };
    key_size + value_len
}

/// Ends a read of `size` bytes that took `elapsed`: a read of no bytes is
/// not counted.
pub fn finish_read(rec: &mut DbMetricRecorder, size: usize, elapsed: Duration)
    requires
        size != 0 ==> read_fits(*old(rec), size, elapsed),
    ensures
        size == 0 ==> *final(rec) == *old(rec),
        size != 0 ==> match old(rec).record {
            None => final(rec).record is None,
            Some(m) => final(rec).record matches Some(n) && n.read_size == m.read_size + size
                && n.read_time@ == m.read_time@ + elapsed@ && n.write_size == m.write_size
                && n.write_time@ == m.write_time@,
        },
{
    if size != 0 {
        add_db_read_record(rec, size, elapsed);
    }
}

/// The bytes of a read are the value's, plus the key's where the read moved
/// the key.
pub proof fn lemma_read_size(key_moved: bool, key_len: usize, value_len: usize)
    ensures
        key_moved ==> spec_read_size(key_moved, key_len, value_len) == key_len + value_len,
        !key_moved ==> spec_read_size(key_moved, key_len, value_len) == value_len,
{
}

} // verus!
