//! Instants and spans of time in whole nanoseconds.
use vstd::prelude::*;

verus! {

/// A span of time in whole nanoseconds.
#[derive(Clone, Copy, Debug, PartialEq, Eq, PartialOrd, Ord, Hash, Structural)]
pub struct Duration {
    pub nanos: u64,
}

/// A point in time, as nanoseconds after an origin that lies before every
/// instant the program sees.
#[derive(Clone, Copy, Debug, PartialEq, Eq, PartialOrd, Ord, Hash, Structural)]
pub struct Instant {
    pub nanos: u64,
}

pub open spec fn min_int(a: int, b: int) -> int {
    if a <= b {
        a
    } else {
        b
    }
}

pub open spec fn max_int(a: int, b: int) -> int {
    if a >= b {
        a
    } else {
        b
    }
}

impl Duration {
    pub fn from_nanos(nanos: u64) -> (d: Duration)
        ensures
            d.nanos == nanos,
    {
        Duration { nanos }
    }

    pub fn from_millis(millis: u64) -> (d: Duration)
        requires
            millis * 1_000_000 <= u64::MAX,
        ensures
            d.nanos == millis * 1_000_000,
    {
        Duration { nanos: millis * 1_000_000 }
    }

    pub fn from_secs(secs: u64) -> (d: Duration)
        requires
            secs * 1_000_000_000 <= u64::MAX,
        ensures
            d.nanos == secs * 1_000_000_000,
    {
        Duration { nanos: secs * 1_000_000_000 }
    }

    /// The smaller of two spans.
    pub fn min(self, other: Duration) -> (d: Duration)
        ensures
            d.nanos == min_int(self.nanos as int, other.nanos as int),
    {
        if self.nanos <= other.nanos {
            self
        } else {
            other
        }
    }
}

impl Instant {
    /// When an instant `span` later than this one falls. Where that lies past
    /// the last representable instant, the result is that last instant.
    pub open spec fn later(self, span: Duration) -> Instant {
        Instant { nanos: min_int(self.nanos + span.nanos, u64::MAX as int) as u64 }
    }

    /// How long after `earlier` this instant is, and zero if it is not after it.
    pub open spec fn since(self, earlier: Instant) -> Duration {
        Duration { nanos: max_int(self.nanos - earlier.nanos, 0) as u64 }
    }

    pub fn from_nanos(nanos: u64) -> (t: Instant)
        ensures
            t.nanos == nanos,
    {
        Instant { nanos }
    }

    pub fn saturating_add(self, span: Duration) -> (t: Instant)
        ensures
            t == self.later(span),
    {
        Instant { nanos: self.nanos.saturating_add(span.nanos) }
    }

    pub fn saturating_duration_since(self, earlier: Instant) -> (d: Duration)
        ensures
            d == self.since(earlier),
    {
        Duration { nanos: self.nanos.saturating_sub(earlier.nanos) }
    }
}

/// The integer nearest to `n / d`; of two equally near, the even one.
pub open spec fn nearest(n: int, d: int) -> int {
    let quotient = n / d;
    let doubled = 2 * (n % d);
    if doubled > d || (doubled == d && quotient % 2 == 1) {
        quotient + 1
    } else {
        quotient
    }
}

/// No integer lies nearer to `n / d` than `nearest` does.
pub proof fn nearest_is_nearest(n: int, d: int)
    requires
        n >= 0,
        d > 0,
    ensures
        -d <= 2 * (nearest(n, d) * d - n) <= d,
{
    let q = n / d;
    let r = n % d;
    assert(n == q * d + r && 0 <= r < d) by (nonlinear_arith)
        requires
            d > 0,
            q == n / d,
            r == n % d,
    ;
    assert((q + 1) * d == q * d + d) by (nonlinear_arith);
}

pub fn nearest_quotient(n: u128, d: u128) -> (r: u128)
    requires
        0 < d <= 0x4000_0000_0000_0000_0000_0000_0000_0000,
        n < u128::MAX,
    ensures
        r == nearest(n as int, d as int),
{
    let quotient: u128 = n / d;
    let remainder: u128 = n % d;
    proof {
        assert(quotient <= n) by (nonlinear_arith)
            requires
                d > 0,
                quotient == n / d,
        ;
    }
    let doubled: u128 = 2 * remainder;
    if doubled > d || (doubled == d && quotient % 2 == 1) {
        quotient + 1
    } else {
        quotient
    }
}

} // verus!
