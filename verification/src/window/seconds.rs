//! Spans of time in seconds.
//!
//! A span is held as a ratio of two whole numbers, so that the span of a
//! number of samples at a sample rate, and every span that a binary
//! floating-point number of seconds can name, is held exactly.

use vstd::prelude::*;
use vstd::std_specs::cmp::PartialEqSpecImpl;

verus! {

/// A span of time in seconds: `numer` over `denom`. A span whose
/// denominator is zero is no span of time; it holds no sample.
#[derive(Debug, Clone, Copy)]
pub struct Seconds {
    pub numer: u64,
    pub denom: u64,
}

impl Seconds {
    /// Whether the two ratios are the same span.
    pub open spec fn same_span(self, other: Seconds) -> bool {
        self.numer * other.denom == other.numer * self.denom
    }

    /// Whether the span is longer than `other`.
    pub open spec fn longer_than(self, other: Seconds) -> bool {
        self.numer * other.denom > other.numer * self.denom
    }

    /// The whole milliseconds of the span, cut off at the largest number;
    /// none where the denominator is zero.
    pub open spec fn whole_millis(self) -> nat {
        if self.denom == 0 {
            0
        } else if self.numer * 1000 / (self.denom as int) <= u64::MAX {
            (self.numer * 1000 / (self.denom as int)) as nat
        } else {
            u64::MAX as nat
        }
    }

    /// The span of `numer` over `denom` seconds.
    pub fn ratio(numer: u64, denom: u64) -> (r: Self)
        ensures
            r == (Seconds { numer, denom }),
    {
        Seconds { numer, denom }
    }

    /// The span of `millis` milliseconds.
    pub fn from_millis(millis: u64) -> (r: Self)
        ensures
            r == (Seconds { numer: millis, denom: 1000 }),
    {
        Seconds { numer: millis, denom: 1000 }
    }

    /// The span of `secs` whole seconds.
    pub fn from_secs(secs: u64) -> (r: Self)
        ensures
            r == (Seconds { numer: secs, denom: 1 }),
    {
        Seconds { numer: secs, denom: 1 }
    }

    /// The whole milliseconds of the span.
    pub fn as_millis(&self) -> (r: u64)
        ensures
            r as nat == self.whole_millis(),
    {
        if self.denom == 0 {
            return 0;
        }
        let scaled: u128 = (self.numer as u128) * 1000;
        let millis: u128 = scaled / (self.denom as u128);
        if millis <= u64::MAX as u128 {
            millis as u64
        } else {
            u64::MAX
        }
    }

    /// Whether the span is longer than `other`.
    pub fn is_longer_than(&self, other: &Seconds) -> (r: bool)
        ensures
            r == self.longer_than(*other),
    {
        assert(self.numer * other.denom <= u64::MAX * u64::MAX) by (nonlinear_arith)
            requires
                self.numer <= u64::MAX,
                other.denom <= u64::MAX,
        ;
        assert(other.numer * self.denom <= u64::MAX * u64::MAX) by (nonlinear_arith)
            requires
                other.numer <= u64::MAX,
                self.denom <= u64::MAX,
        ;
        (self.numer as u128) * (other.denom as u128) > (other.numer as u128) * (
        self.denom as u128)
    }
}

impl PartialEq for Seconds {
    /// Two ratios are equal where they are the same span.
    fn eq(&self, other: &Seconds) -> (r: bool) {
        assert(self.numer * other.denom <= u64::MAX * u64::MAX) by (nonlinear_arith)
            requires
                self.numer <= u64::MAX,
                other.denom <= u64::MAX,
        ;
        assert(other.numer * self.denom <= u64::MAX * u64::MAX) by (nonlinear_arith)
            requires
                other.numer <= u64::MAX,
                self.denom <= u64::MAX,
        ;
        (self.numer as u128) * (other.denom as u128) == (other.numer as u128) * (
        self.denom as u128)
    }
}

impl PartialEqSpecImpl for Seconds {
    open spec fn obeys_eq_spec() -> bool {
        true
    }

    open spec fn eq_spec(&self, other: &Seconds) -> bool {
        self.same_span(*other)
    }
}

} // verus!
