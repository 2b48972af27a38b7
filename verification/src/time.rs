//! A span of time with nanosecond resolution, mirroring `std::time::Duration`.

use vstd::prelude::*;

verus! {

/// Nanoseconds in one second.
pub const NANOS_PER_SEC: u32 = 1_000_000_000;

/// The largest span a `Duration` can hold, in nanoseconds.
pub open spec fn max_duration_nanos() -> nat {
    (u64::MAX as nat) * 1_000_000_000 + 999_999_999
}

/// A span of time: whole seconds and the nanoseconds past them.
#[derive(Clone, Copy, Debug, PartialEq, Eq, PartialOrd, Ord, Hash)]
pub struct Duration {
    secs: u64,
    nanos: u32,
}

impl View for Duration {
    type V = nat;

    /// The span in nanoseconds.
    closed spec fn view(&self) -> nat {
        (self.secs as nat) * 1_000_000_000 + (self.nanos as nat)
    }
}

impl Duration {
    #[verifier::type_invariant]
    spec fn wf(self) -> bool {
        self.nanos < NANOS_PER_SEC
    }

    /// The span of `secs` whole seconds.
    pub fn from_secs(secs: u64) -> (d: Duration)
        ensures
            d@ == secs * 1_000_000_000,
    {
        Duration { secs, nanos: 0 }
    }

    /// The span of `millis` milliseconds.
    pub fn from_millis(millis: u64) -> (d: Duration)
        ensures
            d@ == millis * 1_000_000,
    {
        let secs = millis / 1000;
        let rest = millis % 1000;
        let nanos: u32 = (rest as u32) * 1_000_000;
        assert(secs * 1000 + rest == millis);
        assert((secs as nat) * 1_000_000_000 + (rest as nat) * 1_000_000 == (millis as nat) * 1_000_000) by (nonlinear_arith)
            requires secs * 1000 + rest == millis;
        Duration { secs, nanos }
    }

    /// The largest span.
    pub fn max_value() -> (d: Duration)
        ensures
            d@ == max_duration_nanos(),
    {
        Duration { secs: u64::MAX, nanos: 999_999_999 }
    }

    /// The whole seconds of the span.
    pub fn as_secs(&self) -> (s: u64)
        ensures
            s == self@ / 1_000_000_000,
    {
        proof { use_type_invariant(self); }
        self.secs
    }

    /// The nanoseconds past the whole seconds.
    pub fn subsec_nanos(&self) -> (n: u32)
        ensures
            n == self@ % 1_000_000_000,
    {
        proof { use_type_invariant(self); }
        self.nanos
    }

    /// The span as a count of nanoseconds.
    pub fn as_nanos(&self) -> (n: u128)
        ensures
            n == self@,
            n <= max_duration_nanos(),
    {
        proof { use_type_invariant(self); }
        (self.secs as u128) * 1_000_000_000 + (self.nanos as u128)
    }

    /// The span of `nanos` nanoseconds, which must be representable.
    pub fn from_nanos_u128(nanos: u128) -> (d: Duration)
        requires
            nanos <= max_duration_nanos(),
        ensures
            d@ == nanos,
    {
        let secs = nanos / 1_000_000_000;
        let rest = nanos % 1_000_000_000;
        assert(secs <= u64::MAX) by (nonlinear_arith)
            requires nanos <= (u64::MAX as nat) * 1_000_000_000 + 999_999_999, secs == nanos / 1_000_000_000;
        Duration { secs: secs as u64, nanos: rest as u32 }
    }

    /// `self * rhs`, or the largest span when the product does not fit.
    pub fn saturating_mul(self, rhs: u32) -> (d: Duration)
        ensures
            d@ == if self@ * (rhs as nat) <= max_duration_nanos() { self@ * (rhs as nat) } else { max_duration_nanos() },
    {
        proof { use_type_invariant(&self); }
        let n = self.as_nanos();
        assert(n * (rhs as nat) <= u128::MAX) by (nonlinear_arith)
            requires n <= (u64::MAX as nat) * 1_000_000_000 + 999_999_999, rhs <= u32::MAX;
        let product: u128 = n * (rhs as u128);
        if product <= (u64::MAX as u128) * 1_000_000_000 + 999_999_999 {
            Duration::from_nanos_u128(product)
        } else {
            Duration::max_value()
        }
    }

    /// The shorter of two spans (`self` when they are equal).
    pub fn min(self, other: Duration) -> (d: Duration)
        ensures
            d@ == if self@ <= other@ { self@ } else { other@ },
    {
        if self.as_nanos() <= other.as_nanos() {
            self
        } else {
            other
        }
    }
}

} // verus!
