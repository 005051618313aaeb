use vstd::prelude::*;

verus! {

/// Nanoseconds in one second.
pub const NANOS_PER_SEC: u128 = 1_000_000_000;

/// The longest span a `Duration` can hold: `u64::MAX` seconds plus
/// 999 999 999 nanoseconds, the same range as `std::time::Duration`.
pub const MAX_NANOS: u128 = 18_446_744_073_709_551_615_999_999_999;

/// A span of time with nanosecond precision.
///
/// It covers the same range as `std::time::Duration` and is viewed as the
/// number of nanoseconds it spans.
#[derive(Clone, Copy, Debug, PartialEq, Eq, Structural)]
pub struct Duration {
    pub(crate) nanos: u128,
}

impl Duration {
    #[verifier::type_invariant]
    spec fn in_range(self) -> bool {
        self.nanos <= MAX_NANOS
    }
}

impl View for Duration {
    type V = nat;

    closed spec fn view(&self) -> nat {
        self.nanos as nat
    }
}

impl Duration {
    /// A span of `secs` whole seconds plus `nanos` nanoseconds.
    ///
    /// Like `std::time::Duration::new`, the nanoseconds may exceed one
    /// second; the carry must still fit in the seconds.
    pub fn new(secs: u64, nanos: u32) -> (d: Duration)
        requires
            secs * NANOS_PER_SEC + nanos <= MAX_NANOS,
        ensures
            d@ == secs * NANOS_PER_SEC + nanos,
    {
        let total: u128 = (secs as u128) * NANOS_PER_SEC + (nanos as u128);
        Duration { nanos: total }
    }

    /// A span of `secs` whole seconds.
    pub fn from_secs(secs: u64) -> (d: Duration)
        ensures
            d@ == secs * 1_000_000_000,
    {
        proof {
            assert(secs * 1_000_000_000 <= MAX_NANOS) by (nonlinear_arith)
                requires
                    secs <= u64::MAX,
            ;
        }
        Duration { nanos: (secs as u128) * NANOS_PER_SEC }
    }

    /// A span of `millis` milliseconds.
    pub fn from_millis(millis: u64) -> (d: Duration)
        ensures
            d@ == millis * 1_000_000,
    {
        proof {
            assert(millis * 1_000_000 <= MAX_NANOS) by (nonlinear_arith)
                requires
                    millis <= u64::MAX,
            ;
        }
        Duration { nanos: (millis as u128) * 1_000_000 }
    }

    /// A span of `nanos` nanoseconds.
    pub fn from_nanos(nanos: u64) -> (d: Duration)
        ensures
            d@ == nanos,
    {
        Duration { nanos: nanos as u128 }
    }

    /// The whole number of nanoseconds in the span.
    pub fn as_nanos(&self) -> (n: u128)
        ensures
            n == self@,
            n <= MAX_NANOS,
    {
        proof {
            use_type_invariant(self);
        }
        self.nanos
    }

    /// The whole number of microseconds in the span.
    pub fn as_micros(&self) -> (n: u128)
        ensures
            n == self@ / 1000,
            n <= MAX_NANOS,
    {
        proof {
            use_type_invariant(self);
        }
        self.nanos / 1000
    }

    /// The whole number of seconds in the span.
    pub fn as_secs(&self) -> (s: u64)
        ensures
            s == self@ / NANOS_PER_SEC as nat,
    {
        proof {
            use_type_invariant(self);
            let n = self.nanos as int;
            assert(n / 1_000_000_000 <= u64::MAX) by (nonlinear_arith)
                requires
                    0 <= n <= MAX_NANOS,
            ;
        }
        (self.nanos / NANOS_PER_SEC) as u64
    }

    /// The fractional part of the span, in nanoseconds.
    pub fn subsec_nanos(&self) -> (n: u32)
        ensures
            n == self@ % NANOS_PER_SEC as nat,
            n < NANOS_PER_SEC,
    {
        (self.nanos % NANOS_PER_SEC) as u32
    }

    /// `self - other`, or a zero span where `other` is the longer one.
    pub fn saturating_sub(&self, other: &Duration) -> (d: Duration)
        ensures
            d@ == (if self@ >= other@ { self@ - other@ } else { 0 }),
    {
        proof {
            use_type_invariant(self);
        }
        if self.nanos >= other.nanos {
            Duration { nanos: self.nanos - other.nanos }
        } else {
            Duration { nanos: 0 }
        }
    }

    /// The shorter of the two spans.
    pub fn min(&self, other: &Duration) -> (d: Duration)
        ensures
            d@ == (if self@ <= other@ { self@ } else { other@ }),
    {
        if self.nanos <= other.nanos {
            *self
        } else {
            *other
        }
    }
}

/// Splitting a span into whole seconds and the nanoseconds beyond them, as
/// `as_secs` and `subsec_nanos` do, loses nothing: `Duration::new` accepts
/// the two parts and builds the same span again.
pub proof fn lemma_split_recomposes(d: Duration)
    ensures
        (d@ / NANOS_PER_SEC as nat) * NANOS_PER_SEC + d@ % NANOS_PER_SEC as nat == d@,
{
    let n = d@ as int;
    assert((n / 1_000_000_000) * 1_000_000_000 + n % 1_000_000_000 == n) by (nonlinear_arith)
        requires
            n >= 0,
    ;
}

} // verus!
