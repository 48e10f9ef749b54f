//! Time values: spans of time held as whole nanoseconds, and readings of a
//! cycle counter.
use vstd::prelude::*;

verus! {

/// The largest span a `Duration` can hold, in nanoseconds: `u64::MAX`
/// seconds plus 999_999_999 nanoseconds.
pub const MAX_DURATION_NANOS: u128 = 18_446_744_073_709_551_615_999_999_999u128;

/// Nanoseconds in one second.
pub const NANOS_PER_SEC: u128 = 1_000_000_000u128;

/// A span of time, held as a whole number of nanoseconds no larger than
/// `MAX_DURATION_NANOS`.
#[derive(Clone, Copy, Debug)]
pub struct Duration {
    nanos: u128,
}

impl View for Duration {
    type V = nat;

    closed spec fn view(&self) -> nat {
        self.nanos as nat
    }
}

impl Duration {
    #[verifier::type_invariant]
    closed spec fn inv(self) -> bool {
        self.nanos <= MAX_DURATION_NANOS
    }

    /// The empty span.
    pub fn zero() -> (d: Duration)
        ensures
            d@ == 0,
    {
        Duration { nanos: 0 }
    }

    /// A span of `nanos` nanoseconds.
    pub fn from_nanos(nanos: u64) -> (d: Duration)
        ensures
            d@ == nanos,
    {
        Duration { nanos: nanos as u128 }
    }

    /// A span of `secs` seconds and `nanos` nanoseconds; `nanos` may exceed a
    /// second, the excess carries into the seconds.
    pub fn new(secs: u64, nanos: u32) -> (d: Duration)
        requires
            secs * NANOS_PER_SEC + nanos <= MAX_DURATION_NANOS,
        ensures
            d@ == secs * NANOS_PER_SEC + nanos,
    {
        assert(secs * NANOS_PER_SEC <= u64::MAX * NANOS_PER_SEC) by (nonlinear_arith)
            requires secs <= u64::MAX;
        Duration { nanos: (secs as u128) * NANOS_PER_SEC + (nanos as u128) }
    }

    /// The whole span in nanoseconds.
    pub fn as_nanos(&self) -> (n: u128)
        ensures
            n == self@,
            n <= MAX_DURATION_NANOS,
    {
        proof { use_type_invariant(self); }
        self.nanos
    }

    /// The whole seconds of the span.
    pub fn as_secs(&self) -> (s: u64)
        ensures
            s == self@ / NANOS_PER_SEC as nat,
    {
        proof { use_type_invariant(self); }
        (self.nanos / NANOS_PER_SEC) as u64
    }

    /// The nanoseconds of the span past its whole seconds.
    pub fn subsec_nanos(&self) -> (n: u32)
        ensures
            n == self@ % NANOS_PER_SEC as nat,
    {
        (self.nanos % NANOS_PER_SEC) as u32
    }

    /// `self + other`, or `None` where the sum exceeds `MAX_DURATION_NANOS`.
    pub fn checked_add(self, other: Duration) -> (r: Option<Duration>)
        ensures
            r is None <==> self@ + other@ > MAX_DURATION_NANOS,
            r matches Some(d) ==> d@ == self@ + other@,
    {
        match self.nanos.checked_add(other.nanos) {
            None => None,
            Some(sum) => {
                if sum > MAX_DURATION_NANOS {
                    None
                } else {
                    Some(Duration { nanos: sum })
                }
            },
        }
    }

    /// `self - other`, or `None` where `other` is the longer span.
    pub fn checked_sub(self, other: Duration) -> (r: Option<Duration>)
        ensures
            r is None <==> self@ < other@,
            r matches Some(d) ==> d@ == self@ - other@,
    {
        if self.nanos < other.nanos {
            None
        } else {
            proof { use_type_invariant(&self); }
            Some(Duration { nanos: self.nanos - other.nanos })
        }
    }
}

/// A reading of the processor's cycle counter.
#[derive(Clone, Copy, Debug, PartialEq, Eq, Structural)]
pub struct CycleInstant {
    /// Cycles counted since an arbitrary fixed start.
    pub cycles: u64,
}

/// Cycles from `earlier` to `now`, or zero where `earlier` is the later one.
pub open spec fn cycles_since_or_zero(now: CycleInstant, earlier: CycleInstant) -> u64 {
    if now.cycles >= earlier.cycles {
        (now.cycles - earlier.cycles) as u64
    } else {
        0
    }
}

impl Default for CycleInstant {
    fn default() -> (r: Self)
        ensures
            r.cycles == 0,
    {
        CycleInstant { cycles: 0 }
    }
}

impl CycleInstant {
    /// The reading `cycles`.
    pub fn from_cycles(cycles: u64) -> (r: CycleInstant)
        ensures
            r.cycles == cycles,
    {
        CycleInstant { cycles }
    }

    /// Cycles from `earlier` to `self`, or `None` where `earlier` is later.
    pub fn checked_cycles_since(&self, earlier: CycleInstant) -> (r: Option<u64>)
        ensures
            r == if self.cycles >= earlier.cycles {
                Some((self.cycles - earlier.cycles) as u64)
            } else {
                None
            },
    {
        self.cycles.checked_sub(earlier.cycles)
    }

    /// Cycles from `earlier` to `self`, or zero where `earlier` is later.
    pub fn cycles_since_or_zero(&self, earlier: CycleInstant) -> (r: u64)
        ensures
            r == cycles_since_or_zero(*self, earlier),
    {
        match self.checked_cycles_since(earlier) {
            Some(c) => c,
            None => 0,
        }
    }
}

} // verus!
