//! Spans of time with nanosecond precision.
use vstd::prelude::*;

verus! {

/// Nanoseconds in one second.
pub const NANOS_PER_SEC: u64 = 1_000_000_000;

/// Nanoseconds in one millisecond.
pub const NANOS_PER_MILLI: u64 = 1_000_000;

/// The longest representable span, in nanoseconds.
pub open spec fn max_nanos() -> nat {
    (u64::MAX * NANOS_PER_SEC + (NANOS_PER_SEC - 1)) as nat
}

/// A non-negative span of time: whole seconds plus a fraction below one second.
///
/// Its view is the length of the span in nanoseconds.
#[derive(Clone, Copy, Debug, PartialEq, Eq)]
pub struct Duration {
    secs: u64,
    nanos: u32,
}

impl View for Duration {
    type V = nat;

    closed spec fn view(&self) -> nat {
        (self.secs * NANOS_PER_SEC + self.nanos) as nat
    }
}

/// The nanoseconds of a span that may be absent.
pub open spec fn opt_nanos(d: Option<Duration>) -> Option<nat> {
    match d {
        Some(d) => Some(d@),
        None => None,
    }
}

impl Duration {
    #[verifier::type_invariant]
    closed spec fn inv(self) -> bool {
        self.nanos < NANOS_PER_SEC
    }

    /// A span of `secs` seconds and `nanos` nanoseconds, the latter below one second.
    pub fn new(secs: u64, nanos: u32) -> (d: Duration)
        requires
            nanos < NANOS_PER_SEC,
        ensures
            d@ == secs * NANOS_PER_SEC + nanos,
    {
        Duration { secs, nanos }
    }

    /// The empty span.
    pub fn zero() -> (d: Duration)
        ensures
            d@ == 0,
    {
        Duration { secs: 0, nanos: 0 }
    }

    /// A span of `nanos` nanoseconds.
    pub fn from_nanos(nanos: u64) -> (d: Duration)
        ensures
            d@ == nanos,
    {
        Duration { secs: nanos / NANOS_PER_SEC, nanos: (nanos % NANOS_PER_SEC) as u32 }
    }

    /// A span of `millis` milliseconds.
    pub fn from_millis(millis: u64) -> (d: Duration)
        ensures
            d@ == millis * NANOS_PER_MILLI,
    {
        Duration { secs: millis / 1000, nanos: ((millis % 1000) * NANOS_PER_MILLI) as u32 }
    }

    /// A span of `secs` seconds.
    pub fn from_secs(secs: u64) -> (d: Duration)
        ensures
            d@ == secs * NANOS_PER_SEC,
    {
        Duration { secs, nanos: 0 }
    }

    /// The whole seconds of the span.
    pub fn as_secs(&self) -> (secs: u64)
        ensures
            secs == self@ / NANOS_PER_SEC as nat,
    {
        proof {
            use_type_invariant(self);
        }
        self.secs
    }

    /// The fraction of the span below one second, in nanoseconds.
    pub fn subsec_nanos(&self) -> (nanos: u32)
        ensures
            nanos == self@ % NANOS_PER_SEC as nat,
            nanos < NANOS_PER_SEC,
    {
        proof {
            use_type_invariant(self);
        }
        self.nanos
    }

    /// Whether the span is empty.
    pub fn is_zero(&self) -> (b: bool)
        ensures
            b == (self@ == 0),
    {
        self.secs == 0 && self.nanos == 0
    }

    /// Whether this span is not longer than `other`.
    pub fn le(&self, other: &Duration) -> (b: bool)
        ensures
            b == (self@ <= other@),
    {
        proof {
            use_type_invariant(self);
            use_type_invariant(other);
        }
        self.secs < other.secs || (self.secs == other.secs && self.nanos <= other.nanos)
    }

    /// The sum of two spans, `None` where it is not representable.
    pub fn checked_add(&self, other: &Duration) -> (r: Option<Duration>)
        ensures
            r is Some <==> self@ + other@ <= max_nanos(),
            r matches Some(d) ==> d@ == self@ + other@,
    {
        proof {
            use_type_invariant(self);
            use_type_invariant(other);
        }
        let nanos: u32 = self.nanos + other.nanos;
        let carry: u64 = if nanos >= NANOS_PER_SEC as u32 { 1 } else { 0 };
        let rest: u32 = if carry == 1 { nanos - NANOS_PER_SEC as u32 } else { nanos };
        if self.secs > u64::MAX - other.secs {
            return None;
        }
        let secs: u64 = self.secs + other.secs;
        if secs > u64::MAX - carry {
            return None;
        }
        Some(Duration { secs: secs + carry, nanos: rest })
    }

    /// The difference of two spans, `None` where `other` is the longer one.
    pub fn checked_sub(&self, other: &Duration) -> (r: Option<Duration>)
        ensures
            r is Some <==> other@ <= self@,
            r matches Some(d) ==> d@ == self@ - other@,
    {
        proof {
            use_type_invariant(self);
            use_type_invariant(other);
        }
        if !other.le(self) {
            return None;
        }
        if other.nanos <= self.nanos {
            Some(Duration { secs: self.secs - other.secs, nanos: self.nanos - other.nanos })
        } else {
            Some(
                Duration {
                    secs: self.secs - other.secs - 1,
                    nanos: self.nanos + NANOS_PER_SEC as u32 - other.nanos,
                },
            )
        }
    }

    /// The sum of two spans.
    pub fn plus(&self, other: &Duration) -> (d: Duration)
        requires
            self@ + other@ <= max_nanos(),
        ensures
            d@ == self@ + other@,
    {
        match self.checked_add(other) {
            Some(d) => d,
            None => Duration::zero(),
        }
    }

    /// The difference of two spans.
    pub fn minus(&self, other: &Duration) -> (d: Duration)
        requires
            other@ <= self@,
        ensures
            d@ == self@ - other@,
    {
        match self.checked_sub(other) {
            Some(d) => d,
            None => Duration::zero(),
        }
    }

    /// The difference of two spans, empty where `other` is the longer one.
    pub fn saturating_sub(&self, other: &Duration) -> (d: Duration)
        ensures
            d@ == if other@ <= self@ { (self@ - other@) as nat } else { 0 },
    {
        match self.checked_sub(other) {
            Some(d) => d,
            None => Duration::zero(),
        }
    }
}

/// A second is a thousand milliseconds, and a millisecond a million nanoseconds.
pub proof fn units_of_time(n: u64, secs: Duration, millis: Duration, nanos: Duration)
    requires
        call_ensures(Duration::from_secs, (n,), secs),
        call_ensures(Duration::from_millis, (n,), millis),
        call_ensures(Duration::from_nanos, (n,), nanos),
    ensures
        secs@ == 1000 * millis@,
        millis@ == 1_000_000 * nanos@,
        nanos@ == n,
{
}

/// The seconds and the rest of a span make up the span, and the rest is less than a second.
pub proof fn spans_are_made_of_seconds_and_a_rest(span: &Duration, secs: u64, rest: u32)
    requires
        call_ensures(Duration::as_secs, (span,), secs),
        call_ensures(Duration::subsec_nanos, (span,), rest),
    ensures
        span@ == secs * 1_000_000_000 + rest,
        rest < 1_000_000_000,
{
}

/// Adding a span and taking it away again leads back, and taking away a longer one leaves nothing.
pub proof fn spans_add_up(
    a: &Duration,
    b: &Duration,
    sum: Duration,
    back: Duration,
    rest: Duration,
    shorter: bool,
)
    requires
        a@ + b@ <= max_nanos(),
        call_ensures(Duration::plus, (a, b), sum),
        call_ensures(Duration::minus, (&sum, b), back),
        call_ensures(Duration::saturating_sub, (a, b), rest),
        call_ensures(Duration::le, (a, b), shorter),
    ensures
        sum@ == a@ + b@,
        back@ == a@,
        shorter <==> a@ <= b@,
        shorter ==> rest@ == 0,
        !shorter ==> rest@ + b@ == a@,
{
    assert(call_requires(Duration::plus, (a, b)));
    assert(call_requires(Duration::minus, (&sum, b)));
}

} // verus!
