//! Spans of time and points in time, counted in whole nanoseconds.

use vstd::prelude::*;

verus! {

/// Nanoseconds in one second.
pub const NANOS_PER_SEC: u128 = 1_000_000_000;

/// Nanoseconds in one millisecond.
pub const NANOS_PER_MILLI: u128 = 1_000_000;

/// The longest representable span: `u64::MAX` seconds and 999,999,999 nanoseconds.
pub const MAX_NANOS: u128 = 18_446_744_073_709_551_615_999_999_999;

/// Difference of two counts that stops at zero.
pub open spec fn sat_sub(a: nat, b: nat) -> nat {
    if a >= b {
        (a - b) as nat
    } else {
        0
    }
}

/// Sum of two counts that stops at [`MAX_NANOS`].
pub open spec fn sat_add(a: nat, b: nat) -> nat {
    if a + b <= MAX_NANOS {
        a + b
    } else {
        MAX_NANOS as nat
    }
}

/// A span of time. Its view is the number of nanoseconds it lasts, which
/// never exceeds [`MAX_NANOS`].
#[derive(Debug, Clone, Copy, PartialEq, Eq, Structural, Hash)]
pub struct Duration {
    nanos: u128,
}

impl View for Duration {
    type V = nat;

    closed spec fn view(&self) -> nat {
        self.nanos as nat
    }
}

impl Duration {
    /// No span is longer than the longest representable one.
    #[verifier::type_invariant]
    pub open spec fn in_range(self) -> bool {
        self@ <= MAX_NANOS
    }

    /// The span that lasts `nanos` nanoseconds, for counts up to
    /// [`MAX_NANOS`].
    pub closed spec fn of_nanos(nanos: nat) -> Duration {
        Duration { nanos: nanos as u128 }
    }

    /// [`Duration::of_nanos`] and the view undo each other.
    pub proof fn lemma_of_nanos(nanos: nat, d: Duration)
        ensures
            nanos <= MAX_NANOS ==> Duration::of_nanos(nanos)@ == nanos,
            Duration::of_nanos(d@) == d,
    {
    }

    /// The span of `secs` whole seconds.
    pub fn from_secs(secs: u64) -> (d: Duration)
        ensures
            d@ == secs * NANOS_PER_SEC,
            d == Duration::of_nanos((secs * NANOS_PER_SEC) as nat),
    {
        Duration { nanos: secs as u128 * NANOS_PER_SEC }
    }

    /// The span of `millis` whole milliseconds.
    pub fn from_millis(millis: u64) -> (d: Duration)
        ensures
            d@ == millis * NANOS_PER_MILLI,
            d == Duration::of_nanos((millis * NANOS_PER_MILLI) as nat),
    {
        Duration { nanos: millis as u128 * NANOS_PER_MILLI }
    }

    /// The span of `nanos` nanoseconds.
    pub fn from_nanos(nanos: u64) -> (d: Duration)
        ensures
            d@ == nanos,
            d == Duration::of_nanos(nanos as nat),
    {
        Duration { nanos: nanos as u128 }
    }

    /// The length in nanoseconds.
    pub fn as_nanos(&self) -> (n: u128)
        ensures
            n == self@,
            n <= MAX_NANOS,
    {
        proof {
            use_type_invariant(self);
        }
        self.nanos
    }

    /// The whole seconds in the span.
    pub fn as_secs(&self) -> (s: u64)
        ensures
            s == self@ / (NANOS_PER_SEC as nat),
    {
        proof {
            use_type_invariant(self);
        }
        (self.nanos / NANOS_PER_SEC) as u64
    }

    /// The whole milliseconds in the span.
    pub fn as_millis(&self) -> (m: u128)
        ensures
            m == self@ / (NANOS_PER_MILLI as nat),
    {
        self.nanos / NANOS_PER_MILLI
    }

    /// Whether the span is empty.
    pub fn is_zero(&self) -> (z: bool)
        ensures
            z == (self@ == 0),
    {
        self.nanos == 0
    }

    /// The sum of two spans, stopping at the longest representable span.
    pub fn saturating_add(self, rhs: Duration) -> (d: Duration)
        ensures
            d@ == sat_add(self@, rhs@),
            d == Duration::of_nanos(sat_add(self@, rhs@)),
    {
        proof {
            use_type_invariant(self);
            use_type_invariant(rhs);
        }
        let sum: u128 = self.nanos + rhs.nanos;
        if sum <= MAX_NANOS {
            Duration { nanos: sum }
        } else {
            Duration { nanos: MAX_NANOS }
        }
    }

    /// What is left of `self` after `rhs`, stopping at the empty span.
    pub fn saturating_sub(self, rhs: Duration) -> (d: Duration)
        ensures
            d@ == sat_sub(self@, rhs@),
            d == Duration::of_nanos(sat_sub(self@, rhs@)),
    {
        proof {
            use_type_invariant(self);
        }
        if self.nanos >= rhs.nanos {
            Duration { nanos: self.nanos - rhs.nanos }
        } else {
            Duration { nanos: 0 }
        }
    }
}

/// A point in time, given as the span elapsed since an origin that the
/// embedding application fixes once. Its view is that span in nanoseconds.
#[derive(Debug, Clone, Copy, PartialEq, Eq, Structural, Hash)]
pub struct Instant {
    since_origin: Duration,
}

impl View for Instant {
    type V = nat;

    closed spec fn view(&self) -> nat {
        self.since_origin@
    }
}

impl Instant {
    /// The instant that lies `nanos` nanoseconds after the origin, for
    /// counts up to [`MAX_NANOS`].
    pub closed spec fn of_nanos(nanos: nat) -> Instant {
        Instant { since_origin: Duration::of_nanos(nanos) }
    }

    /// [`Instant::of_nanos`] and the view undo each other.
    pub proof fn lemma_of_nanos(nanos: nat, t: Instant)
        ensures
            nanos <= MAX_NANOS ==> Instant::of_nanos(nanos)@ == nanos,
            Instant::of_nanos(t@) == t,
    {
    }

    /// The instant that lies `since_origin` after the origin.
    pub fn from_origin(since_origin: Duration) -> (t: Instant)
        ensures
            t@ == since_origin@,
            t == Instant::of_nanos(since_origin@),
    {
        Instant { since_origin }
    }

    /// The span from the origin to this instant.
    pub fn since_origin(&self) -> (d: Duration)
        ensures
            d@ == self@,
    {
        self.since_origin
    }

    /// The span from `earlier` to this instant, or the empty span when
    /// `earlier` is in fact the later of the two.
    pub fn duration_since(&self, earlier: Instant) -> (d: Duration)
        ensures
            d@ == sat_sub(self@, earlier@),
            d == Duration::of_nanos(sat_sub(self@, earlier@)),
    {
        self.since_origin.saturating_sub(earlier.since_origin)
    }
}

} // verus!
