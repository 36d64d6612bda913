//! Durations: a short interval counts milliseconds, a long interval counts days.
use vstd::prelude::*;

verus! {

/// A duration in milliseconds.
#[derive(Clone, Copy, Debug, PartialEq, Eq, Structural)]
pub struct ShortInterval {
    pub milliseconds: i64,
}

impl ShortInterval {
    /// The interval of `milliseconds` milliseconds.
    pub fn new(milliseconds: i64) -> (interval: ShortInterval)
        ensures
            interval.milliseconds == milliseconds,
    {
        ShortInterval { milliseconds }
    }

    /// The length of the interval, in milliseconds.
    pub fn milliseconds(&self) -> (milliseconds: i64)
        ensures
            milliseconds == self.milliseconds,
    {
        self.milliseconds
    }
}

impl From<i64> for ShortInterval {
    fn from(milliseconds: i64) -> (interval: ShortInterval) {
        ShortInterval { milliseconds }
    }
}

impl vstd::std_specs::convert::FromSpecImpl<i64> for ShortInterval {
    open spec fn obeys_from_spec() -> bool {
        true
    }

    open spec fn from_spec(milliseconds: i64) -> ShortInterval {
        ShortInterval { milliseconds }
    }
}

/// A duration in days.
#[derive(Clone, Copy, Debug, PartialEq, Eq, Structural)]
pub struct LongInterval {
    pub days: i32,
}

impl LongInterval {
    /// The interval of `days` days.
    pub fn new(days: i32) -> (interval: LongInterval)
        ensures
            interval.days == days,
    {
        LongInterval { days }
    }

    /// The length of the interval, in days.
    pub fn days(&self) -> (days: i32)
        ensures
            days == self.days,
    {
        self.days
    }
}

} // verus!
