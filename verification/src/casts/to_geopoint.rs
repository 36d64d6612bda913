//! Casts to a point on the globe.
use crate::geopoint::GeoPoint;
use vstd::prelude::*;

verus! {

/// A point to a nullable point: the point itself. The result is never null.
pub fn cast_to_geopointN_geopoint(value: GeoPoint) -> (result: Option<GeoPoint>)
    ensures
        result == Some(value),
{
    Some(value)
}

} // verus!
