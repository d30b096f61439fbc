use vstd::prelude::*;

verus! {

/// Nanoseconds in one second.
pub const NANOS_PER_SEC: u128 = 1_000_000_000;

/// The largest span that can be held: `u64::MAX` whole seconds and the
/// nanoseconds short of one more.
pub const MAX_SPAN_NANOS: u128 = 18_446_744_073_709_551_615_999_999_999;

/// A length of time with nanosecond resolution, as long as a
/// `std::time::Duration` can be.
#[derive(Clone, Copy, PartialEq, Eq, Debug)]
pub struct TimeSpan {
    nanos: u128,
}

impl View for TimeSpan {
    type V = nat;

    closed spec fn view(&self) -> nat {
        self.nanos as nat
    }
}

impl TimeSpan {
    #[verifier::type_invariant]
    spec fn inv(self) -> bool {
        self.nanos <= MAX_SPAN_NANOS
    }

    /// A span of `secs` seconds and `nanos` nanoseconds; the nanoseconds may
    /// exceed one second and are carried into the seconds.
    pub fn new(secs: u64, nanos: u32) -> (r: TimeSpan)
        requires
            secs as int * NANOS_PER_SEC + nanos <= MAX_SPAN_NANOS,
        ensures
            r@ == secs as int * NANOS_PER_SEC + nanos,
    {
        TimeSpan { nanos: secs as u128 * NANOS_PER_SEC + nanos as u128 }
    }

    /// The empty span.
    pub fn zero() -> (r: TimeSpan)
        ensures
            r@ == 0,
    {
        TimeSpan { nanos: 0 }
    }

    /// A span of `ms` milliseconds.
    pub fn from_millis(ms: u64) -> (r: TimeSpan)
        ensures
            r@ == ms * 1_000_000,
    {
        TimeSpan { nanos: ms as u128 * 1_000_000 }
    }

    /// A span of `n` nanoseconds, or the largest span where `n` exceeds it.
    pub fn from_nanos_saturating(n: u128) -> (r: TimeSpan)
        ensures
            r@ == clamp_span(n as int),
    {
        if n > MAX_SPAN_NANOS {
            TimeSpan { nanos: MAX_SPAN_NANOS }
        } else {
            TimeSpan { nanos: n }
        }
    }

    /// The span in nanoseconds.
    pub fn as_nanos(&self) -> (r: u128)
        ensures
            r == self@,
            r <= MAX_SPAN_NANOS,
    {
        proof {
            use_type_invariant(self);
        }
        self.nanos
    }

    /// The nanoseconds past the whole seconds.
    pub fn subsec_nanos(&self) -> (r: u32)
        ensures
            r == self@ % (NANOS_PER_SEC as nat),
    {
        (self.nanos % NANOS_PER_SEC) as u32
    }

    /// The sum of two spans, or the largest span where the sum exceeds it.
    pub fn saturating_add(&self, other: TimeSpan) -> (r: TimeSpan)
        ensures
            r@ == clamp_span(self@ + other@ as int),
    {
        proof {
            use_type_invariant(self);
            use_type_invariant(&other);
        }
        TimeSpan::from_nanos_saturating(self.nanos + other.nanos)
    }

    /// The span by which `self` exceeds `other`, zero where it does not.
    pub fn saturating_sub(&self, other: TimeSpan) -> (r: TimeSpan)
        ensures
            r@ == if self@ >= other@ { self@ - other@ } else { 0 },
    {
        proof {
            use_type_invariant(self);
        }
        if self.nanos >= other.nanos {
            TimeSpan { nanos: self.nanos - other.nanos }
        } else {
            TimeSpan { nanos: 0 }
        }
    }

    /// The whole seconds of the span.
    pub fn as_secs(&self) -> (r: u64)
        ensures
            r == self@ / (NANOS_PER_SEC as nat),
    {
        proof {
            use_type_invariant(self);
        }
        (self.nanos / NANOS_PER_SEC) as u64
    }
}

/// `n` nanoseconds, or the largest span where `n` exceeds it.
pub open spec fn clamp_span(n: int) -> nat {
    if n > MAX_SPAN_NANOS {
        MAX_SPAN_NANOS as nat
    } else if n < 0 {
        0
    } else {
        n as nat
    }
}

/// The whole seconds of a span of `nanos` nanoseconds.
pub open spec fn whole_secs(nanos: nat) -> nat {
    nanos / (NANOS_PER_SEC as nat)
}

/// `t` seconds as whole days, hours of the day, minutes of the hour and
/// seconds of the minute.
pub open spec fn datetime_parts(t: nat) -> (nat, nat, nat, nat) {
    (t / 86400, (t / 3600) % 24, (t / 60) % 60, t % 60)
}

/// Splits a span into whole days, hours, minutes and seconds; the sub-second
/// part is dropped.
pub fn duration_to_datetime(d: TimeSpan) -> (r: (u64, u64, u64, u64))
    ensures
        datetime_parts(whole_secs(d@)) == (r.0 as nat, r.1 as nat, r.2 as nat, r.3 as nat),
{
    let mut t = d.as_secs();
    let seconds = t % 60;
    t = t / 60;
    let minutes = t % 60;
    t = t / 60;
    let hours = t % 24;
    t = t / 24;
    (t, hours, minutes, seconds)
}

} // verus!
