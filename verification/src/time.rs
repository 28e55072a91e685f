//! The chip's time values.

use vstd::prelude::*;

verus! {

/// The largest value the chip's 40-bit time domain can hold.
pub const TIME_MAX: u64 = 0xFF_FFFF_FFFF;

/// A validated chip timestamp.
///
/// An `Instant` can only be constructed from a raw value inside the chip's
/// legal timestamp domain, so holding one proves the value is legal.
#[derive(Clone, Copy, PartialEq, Eq, Structural, Debug)]
pub struct Instant {
    value: u64,
}

impl View for Instant {
    type V = u64;

    closed spec fn view(&self) -> u64 {
        self.value
    }
}

impl Instant {
    #[verifier::type_invariant]
    closed spec fn in_domain(&self) -> bool {
        self.value <= TIME_MAX
    }

    /// Wrap a raw timestamp value, if it is inside the legal domain.
    ///
    /// A value past `TIME_MAX` cannot be a genuine chip timestamp; it is
    /// rejected rather than truncated or wrapped.
    pub fn new(value: u64) -> (r: Option<Instant>)
        ensures
            value <= TIME_MAX ==> (r matches Some(i) && i@ == value),
            value > TIME_MAX ==> r is None,
    {
        if value <= TIME_MAX {
            Some(Instant { value })
        } else {
            None
        }
    }

    /// The raw timestamp value.
    pub fn value(&self) -> (r: u64)
        ensures
            r == self@,
            r <= TIME_MAX,
    {
        proof {
            use_type_invariant(&*self);
        }
        self.value
    }
}

} // verus!
