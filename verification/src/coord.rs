//! WGS84 coordinates held as microdegrees, so that all geometric
//! reasoning stays within integer arithmetic.

use vstd::prelude::*;

verus! {

/// Number of microdegrees in one degree.
pub const MICRO_PER_DEGREE: i64 = 1_000_000;

/// Largest admissible longitude, in microdegrees (180 degrees).
pub const LON_BOUND_MICRO: i64 = 180_000_000;

/// Largest admissible latitude, in microdegrees (90 degrees).
pub const LAT_BOUND_MICRO: i64 = 90_000_000;

/// A WGS84 position. Longitude and latitude are stored in microdegrees
/// (one millionth of a degree), which keeps every place coordinate exact
/// and bounded.
#[derive(Clone, Copy, PartialEq, Eq, Structural, Debug)]
pub struct Coord {
    pub lon_micro: i64,
    pub lat_micro: i64,
}

impl Coord {
    /// A coordinate is valid when it lies within the WGS84 bounds.
    pub open spec fn valid(self) -> bool {
        -LON_BOUND_MICRO <= self.lon_micro <= LON_BOUND_MICRO
            && -LAT_BOUND_MICRO <= self.lat_micro <= LAT_BOUND_MICRO
    }

    /// Builds a coordinate from microdegree components.
    pub fn new(lon_micro: i64, lat_micro: i64) -> (c: Coord)
        ensures
            c.lon_micro == lon_micro,
            c.lat_micro == lat_micro,
    {
        Coord { lon_micro, lat_micro }
    }

    /// Reports whether the coordinate lies within the WGS84 bounds.
    pub fn is_valid(&self) -> (r: bool)
        ensures
            r == self.valid(),
    {
        -LON_BOUND_MICRO <= self.lon_micro && self.lon_micro <= LON_BOUND_MICRO
            && -LAT_BOUND_MICRO <= self.lat_micro && self.lat_micro <= LAT_BOUND_MICRO
    }
}

} // verus!
