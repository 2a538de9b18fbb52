//! A span of time counted in whole nanoseconds.
use vstd::prelude::*;

verus! {

pub const NANOS_PER_SEC: u64 = 1_000_000_000;

pub const NANOS_PER_MILLI: u64 = 1_000_000;

/// The largest span a `Duration` can hold, in nanoseconds (about 584 years).
pub open spec fn max_nanos() -> nat {
    u64::MAX as nat
}

/// `a + b`, held at the largest representable span.
pub open spec fn saturating_add_spec(a: nat, b: nat) -> nat {
    if a + b > max_nanos() {
        max_nanos()
    } else {
        a + b
    }
}

/// `a - b`, held at zero.
pub open spec fn saturating_sub_spec(a: nat, b: nat) -> nat {
    if a >= b {
        (a - b) as nat
    } else {
        0
    }
}

/// A span of time with nanosecond resolution. Every arithmetic operation
/// saturates instead of overflowing.
#[derive(Clone, Copy, Debug, PartialEq, Eq, Structural)]
pub struct Duration {
    nanos: u64,
}

impl View for Duration {
    type V = nat;

    /// The span in nanoseconds.
    closed spec fn view(&self) -> nat {
        self.nanos as nat
    }
}

/// Every `Duration` fits the representable range.
pub broadcast proof fn lemma_duration_bounded(d: Duration)
    ensures
        #[trigger] d@ <= max_nanos(),
{
}

impl Duration {
    pub fn zero() -> (r: Duration)
        ensures
            r@ == 0,
    {
        Duration { nanos: 0 }
    }

    pub fn from_nanos(nanos: u64) -> (r: Duration)
        ensures
            r@ == nanos,
    {
        Duration { nanos }
    }

    /// Whole seconds, held at the largest representable span.
    pub fn from_secs(secs: u64) -> (r: Duration)
        ensures
            r@ == if secs * NANOS_PER_SEC > max_nanos() {
                max_nanos()
            } else {
                (secs * NANOS_PER_SEC) as nat
            },
    {
        if secs > u64::MAX / NANOS_PER_SEC {
            Duration { nanos: u64::MAX }
        } else {
            assert(secs * NANOS_PER_SEC <= u64::MAX) by (nonlinear_arith)
                requires
                    secs <= u64::MAX / NANOS_PER_SEC,
                    NANOS_PER_SEC == 1_000_000_000,
            ;
            Duration { nanos: secs * NANOS_PER_SEC }
        }
    }

    pub fn as_nanos(&self) -> (r: u64)
        ensures
            r == self@,
    {
        self.nanos
    }

    /// Whole milliseconds, rounded down.
    pub fn as_millis(&self) -> (r: u64)
        ensures
            r == self@ / (NANOS_PER_MILLI as nat),
    {
        self.nanos / NANOS_PER_MILLI
    }

    /// Whole seconds, rounded down.
    pub fn as_secs(&self) -> (r: u64)
        ensures
            r == self@ / (NANOS_PER_SEC as nat),
    {
        self.nanos / NANOS_PER_SEC
    }

    pub fn saturating_add(&self, other: Duration) -> (r: Duration)
        ensures
            r@ == saturating_add_spec(self@, other@),
    {
        if self.nanos > u64::MAX - other.nanos {
            Duration { nanos: u64::MAX }
        } else {
            Duration { nanos: self.nanos + other.nanos }
        }
    }

    pub fn saturating_sub(&self, other: Duration) -> (r: Duration)
        ensures
            r@ == saturating_sub_spec(self@, other@),
    {
        if self.nanos >= other.nanos {
            Duration { nanos: self.nanos - other.nanos }
        } else {
            Duration { nanos: 0 }
        }
    }

    /// Whether `self` is strictly longer than `other`.
    pub fn longer_than(&self, other: &Duration) -> (r: bool)
        ensures
            r == (self@ > other@),
    {
        self.nanos > other.nanos
    }
}

} // verus!
