//! Points on the globe.
use dbsp::algebra::F64;
use vstd::prelude::*;

verus! {

/// A point, by its two coordinates.
#[derive(Clone, Copy, Debug)]
pub struct GeoPoint {
    pub longitude: F64,
    pub latitude: F64,
}

impl GeoPoint {
    /// The point at the given coordinates.
    pub fn new(longitude: F64, latitude: F64) -> (point: GeoPoint)
        ensures
            point.longitude == longitude,
            point.latitude == latitude,
    {
        GeoPoint { longitude, latitude }
    }
}

} // verus!
