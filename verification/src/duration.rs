//! Spans of time with millisecond precision.

use vstd::prelude::*;

verus! {

/// A non-negative span of time, held as a whole number of milliseconds.
///
/// The field is wide enough for every delay that a trigger can ask for:
/// a count of days that fills a `u64` is still well inside a `u128` of
/// milliseconds.
#[derive(Clone, Copy, Debug, PartialEq, Eq, Structural)]
pub struct Duration {
    pub millis: u128,
}

impl View for Duration {
    type V = nat;

    open spec fn view(&self) -> nat {
        self.millis as nat
    }
}

impl Duration {
    /// The span of `millis` milliseconds, as contracts speak of it.
    pub open spec fn of_millis(millis: nat) -> Duration {
        Duration { millis: millis as u128 }
    }

    /// The span of `secs` whole seconds, as contracts speak of it.
    pub open spec fn of_secs(secs: nat) -> Duration {
        Duration { millis: (secs * 1000) as u128 }
    }

    /// The span of `secs` whole seconds.
    pub fn from_secs(secs: u64) -> (d: Duration)
        ensures
            d == Self::of_secs(secs as nat),
    {
        let wide: u128 = secs as u128;
        Duration { millis: wide * 1000 }
    }

    /// The span of `millis` milliseconds.
    pub fn from_millis(millis: u64) -> (d: Duration)
        ensures
            d == Self::of_millis(millis as nat),
    {
        Duration { millis: millis as u128 }
    }

    /// The whole seconds in this span; what is left of a second is dropped.
    pub fn as_secs(&self) -> (secs: u128)
        ensures
            secs as nat == self@ / 1000,
    {
        self.millis / 1000
    }

    /// The milliseconds in this span.
    pub fn as_millis(&self) -> (millis: u128)
        ensures
            millis as nat == self@,
    {
        self.millis
    }
}

} // verus!
