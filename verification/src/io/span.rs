//! Lengths of time, counted in whole nanoseconds.

use vstd::prelude::*;

verus! {

/// Nanoseconds in one second.
pub const NANOS_PER_SEC: u128 = 1_000_000_000;

/// Nanoseconds in one millisecond.
pub const NANOS_PER_MILLI: u128 = 1_000_000;

/// A length of time: a number of nanoseconds.
#[derive(Clone, Copy, Debug, PartialEq, Eq, Structural)]
pub struct Span {
    pub nanos: u128,
}

impl View for Span {
    type V = nat;

    open spec fn view(&self) -> nat {
        self.nanos as nat
    }
}

impl Span {
    /// What is left of a span of `self` once `used` has passed: nothing if
    /// `used` is as long as the span or longer.
    pub open spec fn spec_minus(self, used: Span) -> Span {
        if self.nanos >= used.nanos {
            Span { nanos: (self.nanos - used.nanos) as u128 }
        } else {
            Span { nanos: 0 }
        }
    }

    /// No time at all.
    pub fn zero() -> (span: Span)
        ensures
            span@ == 0,
    {
        Span { nanos: 0 }
    }

    /// A span of `nanos` nanoseconds.
    pub fn from_nanos(nanos: u128) -> (span: Span)
        ensures
            span@ == nanos,
    {
        Span { nanos }
    }

    /// A span of `millis` milliseconds.
    pub fn from_millis(millis: u64) -> (span: Span)
        ensures
            span@ == millis * NANOS_PER_MILLI,
    {
        let wide: u128 = millis as u128;
        Span { nanos: wide * NANOS_PER_MILLI }
    }

    /// A span of `secs` seconds.
    pub fn from_secs(secs: u64) -> (span: Span)
        ensures
            span@ == secs * NANOS_PER_SEC,
    {
        let wide: u128 = secs as u128;
        Span { nanos: wide * NANOS_PER_SEC }
    }

    /// The length of the span in nanoseconds.
    pub fn as_nanos(&self) -> (nanos: u128)
        ensures
            nanos == self@,
    {
        self.nanos
    }

    /// The whole seconds in the span, capped at the largest `u64`.
    pub fn secs(&self) -> (secs: u64)
        ensures
            secs == if self@ / (NANOS_PER_SEC as nat) <= u64::MAX {
                self@ / (NANOS_PER_SEC as nat)
            } else {
                u64::MAX as nat
            },
    {
        let whole: u128 = self.nanos / NANOS_PER_SEC;
        if whole <= u64::MAX as u128 {
            whole as u64
        } else {
            u64::MAX
        }
    }

    /// The part of the span below one second, in nanoseconds.
    pub fn subsec_nanos(&self) -> (nanos: u32)
        ensures
            nanos == self@ % (NANOS_PER_SEC as nat),
    {
        (self.nanos % NANOS_PER_SEC) as u32
    }

    /// Whether this span is at least as long as `other`.
    pub fn at_least(&self, other: Span) -> (yes: bool)
        ensures
            yes == (self@ >= other@),
    {
        self.nanos >= other.nanos
    }

    /// Whether this span is strictly longer than `other`.
    pub fn longer_than(&self, other: Span) -> (yes: bool)
        ensures
            yes == (self@ > other@),
    {
        self.nanos > other.nanos
    }

    /// What is left of this span once `used` has passed: nothing if `used`
    /// is as long as the span or longer.
    pub fn minus(&self, used: Span) -> (left: Span)
        ensures
            left == self.spec_minus(used),
            left@ == if self@ >= used@ {
                self@ - used@
            } else {
                0
            },
    {
        if self.nanos >= used.nanos {
            Span { nanos: self.nanos - used.nanos }
        } else {
            Span { nanos: 0 }
        }
    }
}

} // verus!
