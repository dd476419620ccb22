//! A span of time counted in nanoseconds, with the range and arithmetic of `std::time::Duration`.

use vstd::prelude::*;

verus! {

/// Nanoseconds in one second.
pub const NANOS_PER_SEC: u128 = 1_000_000_000;

/// Nanoseconds in one millisecond.
pub const NANOS_PER_MILLI: u128 = 1_000_000;

/// The longest span: `u64::MAX` seconds and 999_999_999 nanoseconds.
pub const MAX_NANOS: u128 = 18_446_744_073_709_551_615_999_999_999;

/// A span of time, as `std::time::Duration` counts it: whole nanoseconds from zero up to
/// `MAX_NANOS`. Its view is the number of nanoseconds.
#[derive(Clone, Copy, Debug, PartialEq, Eq, Structural, Hash)]
pub struct Duration {
    nanos: u128,
}

impl View for Duration {
    type V = nat;

    closed spec fn view(&self) -> nat {
        self.nanos as nat
    }
}

impl Duration {
    #[verifier::type_invariant]
    spec fn in_range(self) -> bool {
        self.nanos <= MAX_NANOS
    }

    /// `secs` seconds and `nanos` nanoseconds; `nanos` may exceed a second, as in std.
    pub fn new(secs: u64, nanos: u32) -> (d: Duration)
        requires
            secs as int * NANOS_PER_SEC + nanos as int <= MAX_NANOS,
        ensures
            d@ == secs as int * NANOS_PER_SEC + nanos as int,
    {
        Duration { nanos: secs as u128 * NANOS_PER_SEC + nanos as u128 }
    }

    /// The empty span.
    pub fn zero() -> (d: Duration)
        ensures
            d@ == 0,
    {
        Duration { nanos: 0 }
    }

    pub fn from_secs(secs: u64) -> (d: Duration)
        ensures
            d@ == secs as int * NANOS_PER_SEC,
    {
        Duration { nanos: secs as u128 * NANOS_PER_SEC }
    }

    pub fn from_millis(millis: u64) -> (d: Duration)
        ensures
            d@ == millis as int * NANOS_PER_MILLI,
    {
        Duration { nanos: millis as u128 * NANOS_PER_MILLI }
    }

    pub fn from_nanos(nanos: u64) -> (d: Duration)
        ensures
            d@ == nanos as int,
    {
        Duration { nanos: nanos as u128 }
    }

    /// The whole span in nanoseconds.
    pub fn as_nanos(&self) -> (n: u128)
        ensures
            n == self@,
            n <= MAX_NANOS,
    {
        proof {
            use_type_invariant(self);
        }
        self.nanos
    }

    /// The whole seconds of the span.
    pub fn as_secs(&self) -> (s: u64)
        ensures
            s as int == self@ as int / NANOS_PER_SEC as int,
    {
        proof {
            use_type_invariant(self);
        }
        (self.nanos / NANOS_PER_SEC) as u64
    }

    /// The nanoseconds past the whole seconds.
    pub fn subsec_nanos(&self) -> (n: u32)
        ensures
            n as int == self@ as int % NANOS_PER_SEC as int,
    {
        (self.nanos % NANOS_PER_SEC) as u32
    }

    /// The sum, or `None` where it would pass `MAX_NANOS`.
    pub fn checked_add(self, rhs: Duration) -> (r: Option<Duration>)
        ensures
            self@ + rhs@ <= MAX_NANOS <==> r is Some,
            r matches Some(d) ==> d@ == self@ + rhs@,
    {
        proof {
            use_type_invariant(&self);
            use_type_invariant(&rhs);
        }
        let sum = self.nanos + rhs.nanos;
        if sum <= MAX_NANOS {
            Some(Duration { nanos: sum })
        } else {
            None
        }
    }

    /// The difference, or `None` where `rhs` is the longer span.
    pub fn checked_sub(self, rhs: Duration) -> (r: Option<Duration>)
        ensures
            rhs@ <= self@ <==> r is Some,
            r matches Some(d) ==> d@ == self@ - rhs@,
    {
        proof {
            use_type_invariant(&self);
        }
        if rhs.nanos <= self.nanos {
            Some(Duration { nanos: self.nanos - rhs.nanos })
        } else {
            None
        }
    }

    /// The span taken `n` times, or `None` where it would pass `MAX_NANOS`.
    pub fn checked_mul(self, n: u32) -> (r: Option<Duration>)
        ensures
            self@ * n <= MAX_NANOS <==> r is Some,
            r matches Some(d) ==> d@ == self@ * n,
    {
        proof {
            use_type_invariant(&self);
        }
        let prod = self.nanos.checked_mul(n as u128);
        match prod {
            Some(p) => {
                if p <= MAX_NANOS {
                    Some(Duration { nanos: p })
                } else {
                    None
                }
            },
            None => {
                proof {
                    assert(self.nanos * n > u128::MAX);
                }
                None
            },
        }
    }
}

} // verus!
