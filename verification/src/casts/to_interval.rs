//! Casts to an interval.
use crate::interval::ShortInterval;
use vstd::prelude::*;

verus! {

/// `BIGINT` to a short interval: the interval of that many milliseconds.
pub fn cast_to_ShortInterval_i64(value: i64) -> (result: ShortInterval)
    ensures
        result.milliseconds == value,
{
    ShortInterval::from(value)
}

} // verus!
