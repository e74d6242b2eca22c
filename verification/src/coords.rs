//! Geographic positions, held as fixed-point microdegrees.
//!
//! The engine never does geometry with a position: it only checks that each
//! axis lies in the accepted range and stores the value, so a coordinate axis
//! is an integer count of millionths of a degree.

use vstd::prelude::*;

verus! {

/// Largest magnitude an axis may have: 90 degrees, in microdegrees.
///
/// The bound is applied to the latitude and to the longitude alike.
pub const COORDINATE_LIMIT_MICRODEG: i64 = 90_000_000;

/// One position: latitude and longitude, each in microdegrees.
#[derive(Clone, Copy, Debug, PartialEq, Eq, Structural)]
pub struct Coordinates {
    pub lat: i64,
    pub long: i64,
}

/// An axis value is acceptable when it lies within 90 degrees of zero.
pub open spec fn spec_valid_axis(v: i64) -> bool {
    -COORDINATE_LIMIT_MICRODEG <= v && v <= COORDINATE_LIMIT_MICRODEG
}

/// Range check for a single coordinate axis.
pub fn is_valid_coordinate(coordinate: i64) -> (r: bool)
    ensures
        r == spec_valid_axis(coordinate),
{
    -COORDINATE_LIMIT_MICRODEG <= coordinate && coordinate <= COORDINATE_LIMIT_MICRODEG
}

impl Coordinates {
    /// A position is acceptable only when both axes are in range.
    pub open spec fn spec_valid(self) -> bool {
        spec_valid_axis(self.lat) && spec_valid_axis(self.long)
    }

    /// Range check for a whole position: both axes must be in range.
    pub fn is_valid(&self) -> (r: bool)
        ensures
            r == self.spec_valid(),
    {
        is_valid_coordinate(self.lat) && is_valid_coordinate(self.long)
    }
}

} // verus!
