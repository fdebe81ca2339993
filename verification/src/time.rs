use std::time::Duration;
use vstd::prelude::*;

verus! {

/// Nanoseconds in one second.
pub const NANOS_PER_SEC: u128 = 1_000_000_000;

/// The longest span that can be written: `u64::MAX` seconds and 999_999_999 nanoseconds.
pub const MAX_SPAN_NANOS: u128 = 18_446_744_073_709_551_615_999_999_999;

/// A non-negative span of time with nanosecond precision.
///
/// It covers the same range as `std::time::Duration`: `u64::MAX` whole seconds plus
/// a fraction of a second.
#[derive(Clone, Copy, Debug, PartialEq, Eq, Structural)]
pub struct TimeSpan {
    nanos: u128,
}

impl View for TimeSpan {
    type V = nat;

    /// The length of the span in nanoseconds.
    closed spec fn view(&self) -> nat {
        self.nanos as nat
    }
}

/// The smaller of two naturals.
pub open spec fn min_nat(a: nat, b: nat) -> nat {
    if a <= b { a } else { b }
}

impl TimeSpan {
    #[verifier::type_invariant]
    spec fn within_range(self) -> bool {
        self.nanos <= MAX_SPAN_NANOS
    }

    /// The empty span.
    pub fn zero() -> (r: TimeSpan)
        ensures
            r@ == 0,
    {
        TimeSpan { nanos: 0 }
    }

    /// A span of whole seconds.
    pub fn from_secs(secs: u64) -> (r: TimeSpan)
        ensures
            r@ == secs * NANOS_PER_SEC,
    {
        TimeSpan { nanos: secs as u128 * NANOS_PER_SEC }
    }

    /// A span of whole milliseconds.
    pub fn from_millis(millis: u64) -> (r: TimeSpan)
        ensures
            r@ == millis * 1_000_000,
    {
        TimeSpan { nanos: millis as u128 * 1_000_000 }
    }

    /// A span of whole nanoseconds.
    pub fn from_nanos(nanos: u64) -> (r: TimeSpan)
        ensures
            r@ == nanos,
    {
        TimeSpan { nanos: nanos as u128 }
    }

    /// A span of `secs` seconds and `nanos` nanoseconds; `nanos` may exceed one second.
    pub fn new(secs: u64, nanos: u32) -> (r: TimeSpan)
        requires
            secs * NANOS_PER_SEC + nanos <= MAX_SPAN_NANOS,
        ensures
            r@ == secs * NANOS_PER_SEC + nanos,
    {
        TimeSpan { nanos: secs as u128 * NANOS_PER_SEC + nanos as u128 }
    }

    /// The whole seconds of the span.
    pub fn as_secs(&self) -> (r: u64)
        ensures
            r == self@ / (NANOS_PER_SEC as nat),
    {
        proof {
            use_type_invariant(self);
        }
        (self.nanos / NANOS_PER_SEC) as u64
    }

    /// The nanoseconds of the span beyond its whole seconds.
    pub fn subsec_nanos(&self) -> (r: u32)
        ensures
            r == self@ % (NANOS_PER_SEC as nat),
    {
        (self.nanos % NANOS_PER_SEC) as u32
    }

    /// The length of the span in nanoseconds.
    pub fn as_nanos(&self) -> (r: u128)
        ensures
            r == self@,
            r <= MAX_SPAN_NANOS,
    {
        proof {
            use_type_invariant(self);
        }
        self.nanos
    }

    /// Whether the span is empty.
    pub fn is_zero(&self) -> (r: bool)
        ensures
            r == (self@ == 0),
    {
        self.nanos == 0
    }

    /// Whether this span is strictly shorter than `other`.
    pub fn is_shorter_than(&self, other: &TimeSpan) -> (r: bool)
        ensures
            r == (self@ < other@),
    {
        self.nanos < other.nanos
    }

    /// Twice this span, but no longer than `cap`.
    pub fn doubled_up_to(&self, cap: &TimeSpan) -> (r: TimeSpan)
        ensures
            r@ == min_nat(2 * self@, cap@),
    {
        if self.nanos > cap.nanos / 2 {
            *cap
        } else {
            proof {
                use_type_invariant(cap);
            }
            TimeSpan { nanos: self.nanos * 2 }
        }
    }
}

/// What `Duration::as_secs` gives for a duration: its whole seconds.
pub uninterp spec fn duration_whole_secs(duration: Duration) -> u64;

/// What `Duration::subsec_nanos` gives for a duration: its nanoseconds past the whole seconds.
pub uninterp spec fn duration_subsec_nanos(duration: Duration) -> u32;

/// The whole seconds of a duration: `std::time::Duration::as_secs`. The contract names the
/// result.
#[verifier::external_body]
fn whole_secs_of(duration: &Duration) -> (r: u64)
    ensures
        r == duration_whole_secs(*duration),
{
    duration.as_secs()
}

/// The nanoseconds of a duration past its whole seconds: `std::time::Duration::subsec_nanos`.
/// The contract names the result and states what std documents of it: it is always less
/// than one second's worth of nanoseconds.
#[verifier::external_body]
fn subsec_nanos_of(duration: &Duration) -> (r: u32)
    ensures
        r == duration_subsec_nanos(*duration),
        r < NANOS_PER_SEC,
{
    duration.subsec_nanos()
}

/// A length of time that can become a [`TimeSpan`]: a `TimeSpan` itself or a
/// `std::time::Duration`.
pub trait IntoSpan {
    /// The length in nanoseconds.
    spec fn span_nanos(&self) -> nat;

    /// The span of this length.
    fn into_span(self) -> (r: TimeSpan)
        ensures
            r@ == self.span_nanos(),
    ;
}

impl IntoSpan for TimeSpan {
    open spec fn span_nanos(&self) -> nat {
        self@
    }

    fn into_span(self) -> (r: TimeSpan) {
        self
    }
}

impl IntoSpan for Duration {
    /// The whole seconds in nanoseconds plus the nanoseconds past them.
    open spec fn span_nanos(&self) -> nat {
        (duration_whole_secs(*self) * NANOS_PER_SEC + duration_subsec_nanos(*self)) as nat
    }

    fn into_span(self) -> (r: TimeSpan) {
        let secs = whole_secs_of(&self);
        let nanos = subsec_nanos_of(&self);
        assert(secs * NANOS_PER_SEC <= 18_446_744_073_709_551_615 * NANOS_PER_SEC) by (
        nonlinear_arith)
            requires
                secs <= 18_446_744_073_709_551_615u64,
        ;
        TimeSpan::new(secs, nanos)
    }
}

} // verus!
