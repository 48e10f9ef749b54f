//! Distribution of measured times over buckets at two levels: microseconds
//! and hundreds of nanoseconds.
use vstd::prelude::*;

verus! {

/// Width of a microsecond bucket, in microseconds.
pub const STEP_IN_US: usize = 1;
/// Width of a nanosecond bucket, in nanoseconds.
pub const STEP_IN_NS: usize = 100;
/// Default number of microsecond buckets.
pub const US_SPAN_SIZE: usize = 200;
/// Default number of nanosecond buckets.
pub const NS_SPAN_SIZE: usize = 40;
/// Capacity of each bucket array.
pub const MAX_ARRAY_SIZE: usize = 200;

/// Counts of recorded times per bucket, at a microsecond level and, for short
/// times, at a nanosecond level.
#[derive(Clone, Copy, Debug)]
pub struct TimeDistributionStats {
    /// Number of recorded times.
    pub total_count: u64,
    /// Number of microsecond buckets in use, each `STEP_IN_US` wide.
    pub span_in_us: usize,
    /// Number of nanosecond buckets in use, each `STEP_IN_NS` wide.
    pub span_in_ns: usize,
    /// Counts per microsecond bucket.
    pub us_percentile: [u64; MAX_ARRAY_SIZE],
    /// Counts per nanosecond bucket.
    pub ns_percentile: [u64; MAX_ARRAY_SIZE],
}

/// The sum of the first `n` entries of `s`.
pub open spec fn bucket_sum(s: Seq<u64>, n: int) -> int
    decreases n,
{
    if n <= 0 {
        0
    } else {
        bucket_sum(s, n - 1) + s[n - 1]
    }
}

/// Raising one entry below `n` raises the sum of the first `n` by as much.
pub proof fn lemma_bucket_sum_update(s: Seq<u64>, n: int, i: int, v: u64)
    requires
        0 <= i < n <= s.len(),
    ensures
        bucket_sum(s.update(i, v), n) == bucket_sum(s, n) - s[i] + v,
    decreases n,
{
    if n - 1 != i {
        lemma_bucket_sum_update(s, n - 1, i, v);
    } else {
        assert(s.update(i, v)[n - 1] == v);
        lemma_bucket_sum_unchanged(s, s.update(i, v), n - 1);
    }
}

/// Sums of sequences that agree on the first `n` entries are equal.
pub proof fn lemma_bucket_sum_unchanged(s: Seq<u64>, t: Seq<u64>, n: int)
    requires
        0 <= n <= s.len(),
        n <= t.len(),
        forall|j: int| 0 <= j < n ==> s[j] == t[j],
    ensures
        bucket_sum(s, n) == bucket_sum(t, n),
    decreases n,
{
    if n > 0 {
        lemma_bucket_sum_unchanged(s, t, n - 1);
    }
}

/// The sum of pointwise sums is the sum of the sums.
pub proof fn lemma_bucket_sum_add(s: Seq<u64>, t: Seq<u64>, r: Seq<u64>, n: int)
    requires
        0 <= n <= s.len(),
        n <= t.len(),
        n <= r.len(),
        forall|j: int| 0 <= j < n ==> r[j] == s[j] + t[j],
    ensures
        bucket_sum(r, n) == bucket_sum(s, n) + bucket_sum(t, n),
    decreases n,
{
    if n > 0 {
        lemma_bucket_sum_add(s, t, r, n - 1);
    }
}

impl Default for TimeDistributionStats {
    fn default() -> (r: Self)
        ensures
            r.total_count == 0,
            r.span_in_us == US_SPAN_SIZE,
            r.span_in_ns == NS_SPAN_SIZE,
            forall|i: int| 0 <= i < MAX_ARRAY_SIZE ==> r.us_percentile[i] == 0 && r.ns_percentile[i] == 0,
            r.well_formed(),
    {
        Self::new(US_SPAN_SIZE, NS_SPAN_SIZE)
    }
}

impl TimeDistributionStats {
    /// The recorded count equals the sum of the microsecond buckets in use.
    pub open spec fn counted(&self) -> bool {
        self.span_in_us <= MAX_ARRAY_SIZE && bucket_sum(self.us_percentile@, self.span_in_us as int)
            == self.total_count
    }

    /// The distribution is consistent: the buckets in use fit the arrays,
    /// the microsecond buckets count every recorded time once, the
    /// nanosecond buckets count some of them (only short times), and the
    /// buckets not in use are empty.
    pub open spec fn well_formed(&self) -> bool {
        &&& self.counted()
        &&& self.span_in_ns <= MAX_ARRAY_SIZE
        &&& forall|i: int| self.span_in_us <= i < MAX_ARRAY_SIZE ==> self.us_percentile[i] == 0
        &&& forall|i: int| self.span_in_ns <= i < MAX_ARRAY_SIZE ==> self.ns_percentile[i] == 0
        &&& bucket_sum(self.ns_percentile@, MAX_ARRAY_SIZE as int) <= self.total_count
    }

    /// Empty distribution with the given numbers of buckets.
    pub fn new(span_in_us: usize, span_in_ns: usize) -> (r: Self)
        ensures
            r.total_count == 0,
            r.span_in_us == span_in_us,
            r.span_in_ns == span_in_ns,
            forall|i: int| 0 <= i < MAX_ARRAY_SIZE ==> r.us_percentile[i] == 0 && r.ns_percentile[i] == 0,
            span_in_us <= MAX_ARRAY_SIZE ==> r.counted(),
            span_in_us <= MAX_ARRAY_SIZE && span_in_ns <= MAX_ARRAY_SIZE ==> r.well_formed(),
    {
        let r = TimeDistributionStats {
            total_count: 0,
            span_in_us,
            span_in_ns,
            us_percentile: [0; MAX_ARRAY_SIZE],
            ns_percentile: [0; MAX_ARRAY_SIZE],
        };
        proof {
            if span_in_us <= MAX_ARRAY_SIZE {
                lemma_bucket_sum_unchanged(
                    r.us_percentile@,
                    Seq::new(MAX_ARRAY_SIZE as nat, |i: int| 0u64),
                    span_in_us as int,
                );
                lemma_bucket_sum_zero(span_in_us as int);
                lemma_bucket_sum_unchanged(
                    r.ns_percentile@,
                    Seq::new(MAX_ARRAY_SIZE as nat, |i: int| 0u64),
                    MAX_ARRAY_SIZE as int,
                );
                lemma_bucket_sum_zero(MAX_ARRAY_SIZE as int);
            }
        }
        r
    }

    /// Adds the counts of `other`, bucket by bucket, over the buckets in use.
    pub fn update(&mut self, other: &TimeDistributionStats)
        requires
            old(self).span_in_us <= MAX_ARRAY_SIZE,
            old(self).span_in_ns <= MAX_ARRAY_SIZE,
            old(self).total_count + other.total_count <= u64::MAX,
            forall|i: int|
                0 <= i < old(self).span_in_us ==> old(self).us_percentile[i] + other.us_percentile[i]
                    <= u64::MAX,
            forall|i: int|
                0 <= i < old(self).span_in_ns ==> old(self).ns_percentile[i] + other.ns_percentile[i]
                    <= u64::MAX,
        ensures
            final(self).total_count == old(self).total_count + other.total_count,
            final(self).span_in_us == old(self).span_in_us,
            final(self).span_in_ns == old(self).span_in_ns,
            forall|i: int|
                0 <= i < MAX_ARRAY_SIZE ==> final(self).us_percentile[i] == if i < old(self).span_in_us {
                    old(self).us_percentile[i] + other.us_percentile[i]
                } else {
                    old(self).us_percentile[i] as int
                },
            forall|i: int|
                0 <= i < MAX_ARRAY_SIZE ==> final(self).ns_percentile[i] == if i < old(self).span_in_ns {
                    old(self).ns_percentile[i] + other.ns_percentile[i]
                } else {
                    old(self).ns_percentile[i] as int
                },
            old(self).counted() && other.counted() && other.span_in_us == old(self).span_in_us
                ==> final(self).counted(),
            old(self).well_formed() && other.well_formed() && other.span_in_us == old(self).span_in_us
                && other.span_in_ns == old(self).span_in_ns ==> final(self).well_formed(),
    {
        self.total_count = self.total_count + other.total_count;
        let span_in_us = self.span_in_us;
        let span_in_ns = self.span_in_ns;
        let ghost us0 = self.us_percentile;
        let ghost ns0 = self.ns_percentile;
        let mut index: usize = 0;
        while index < span_in_us
            invariant
                span_in_us == old(self).span_in_us <= MAX_ARRAY_SIZE,
                0 <= index <= span_in_us,
                us0 == old(self).us_percentile,
                self.total_count == old(self).total_count + other.total_count,
                self.span_in_us == span_in_us,
                self.span_in_ns == span_in_ns,
                self.ns_percentile == ns0,
                forall|i: int|
                    0 <= i < old(self).span_in_us ==> us0[i] + other.us_percentile[i] <= u64::MAX,
                forall|i: int|
                    0 <= i < MAX_ARRAY_SIZE ==> self.us_percentile[i] == if i < index {
                        us0[i] + other.us_percentile[i]
                    } else {
                        us0[i] as int
                    },
            decreases span_in_us - index,
        {
            self.us_percentile[index] = self.us_percentile[index] + other.us_percentile[index];
            index = index + 1;
        }
        let ghost us1 = self.us_percentile;
        let mut index: usize = 0;
        while index < span_in_ns
            invariant
                span_in_ns == old(self).span_in_ns <= MAX_ARRAY_SIZE,
                0 <= index <= span_in_ns,
                ns0 == old(self).ns_percentile,
                self.total_count == old(self).total_count + other.total_count,
                self.span_in_us == span_in_us,
                self.span_in_ns == span_in_ns,
                self.us_percentile == us1,
                forall|i: int|
                    0 <= i < old(self).span_in_ns ==> ns0[i] + other.ns_percentile[i] <= u64::MAX,
                forall|i: int|
                    0 <= i < MAX_ARRAY_SIZE ==> self.ns_percentile[i] == if i < index {
                        ns0[i] + other.ns_percentile[i]
                    } else {
                        ns0[i] as int
                    },
            decreases span_in_ns - index,
        {
            self.ns_percentile[index] = self.ns_percentile[index] + other.ns_percentile[index];
            index = index + 1;
        }
        proof {
            if old(self).counted() && other.counted() && other.span_in_us == span_in_us {
                lemma_bucket_sum_add(
                    us0@,
                    other.us_percentile@,
                    self.us_percentile@,
                    span_in_us as int,
                );
            }
            if old(self).well_formed() && other.well_formed() && other.span_in_us == span_in_us
                && other.span_in_ns == span_in_ns {
                assert forall|j: int| 0 <= j < MAX_ARRAY_SIZE implies self.ns_percentile@[j]
                    == ns0@[j] + other.ns_percentile@[j] by {
                    if j >= span_in_ns {
                        assert(ns0[j] == 0 && other.ns_percentile[j] == 0);
                    }
                }
                lemma_bucket_sum_add(ns0@, other.ns_percentile@, self.ns_percentile@, MAX_ARRAY_SIZE as int);
            }
        }
    }

    /// Counts one time whose microsecond bucket is `us_index` (the last
    /// bucket in use takes all longer times) and, where the time is short
    /// enough, whose nanosecond bucket is `ns_index`.
    pub fn record_buckets(&mut self, us_index: usize, ns_index: Option<usize>)
        requires
            1 <= old(self).span_in_us <= MAX_ARRAY_SIZE,
            old(self).total_count < u64::MAX,
            ({
                let i = if us_index > old(self).span_in_us - 1 {
                    old(self).span_in_us - 1
                } else {
                    us_index as int
                };
                old(self).us_percentile[i] < u64::MAX
            }),
            ns_index matches Some(n) ==> n < MAX_ARRAY_SIZE && old(self).ns_percentile[n as int]
                < u64::MAX,
        ensures
            ({
                let i = if us_index > old(self).span_in_us - 1 {
                    old(self).span_in_us - 1
                } else {
                    us_index as int
                };
                &&& final(self).us_percentile@ == old(self).us_percentile@.update(
                    i,
                    (old(self).us_percentile[i] + 1) as u64,
                )
                &&& final(self).ns_percentile@ == match ns_index {
                    Some(n) => old(self).ns_percentile@.update(
                        n as int,
                        (old(self).ns_percentile[n as int] + 1) as u64,
                    ),
                    None => old(self).ns_percentile@,
                }
            }),
            final(self).total_count == old(self).total_count + 1,
            final(self).span_in_us == old(self).span_in_us,
            final(self).span_in_ns == old(self).span_in_ns,
            old(self).counted() ==> final(self).counted(),
            old(self).well_formed() && (ns_index matches Some(n) ==> n < old(self).span_in_ns)
                ==> final(self).well_formed(),
    {
        let ghost ns0 = self.ns_percentile@;
        let ghost us0 = self.us_percentile@;
        self.total_count = self.total_count + 1;
        let mut index = us_index;
        if index > self.span_in_us - 1 {
            index = self.span_in_us - 1;
        }
        self.us_percentile[index] = self.us_percentile[index] + 1;
        match ns_index {
            Some(n) => {
                self.ns_percentile[n] = self.ns_percentile[n] + 1;
            },
            None => {},
        }
        proof {
            assert(self.us_percentile@ =~= us0.update(index as int, (us0[index as int] + 1) as u64));
            lemma_bucket_sum_update(us0, self.span_in_us as int, index as int, (us0[index as int] + 1) as u64);
        }
        assert(self.ns_percentile@ =~= match ns_index {
            Some(n) => old(self).ns_percentile@.update(
                n as int,
                (old(self).ns_percentile[n as int] + 1) as u64,
            ),
            None => old(self).ns_percentile@,
        });
        proof {
            match ns_index {
                Some(n) => {
                    lemma_bucket_sum_update(ns0, MAX_ARRAY_SIZE as int, n as int, (ns0[n as int] + 1) as u64);
                },
                None => {},
            }
        }
    }
}

/// All-zero buckets sum to zero.
pub proof fn lemma_bucket_sum_zero(n: int)
    requires
        0 <= n <= MAX_ARRAY_SIZE,
    ensures
        bucket_sum(Seq::new(MAX_ARRAY_SIZE as nat, |i: int| 0u64), n) == 0,
    decreases n,
{
    if n > 0 {
        lemma_bucket_sum_zero(n - 1);
    }
}

} // verus!
