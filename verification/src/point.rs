use vstd::prelude::*;

verus! {

/// A geographic position: latitude and longitude in microdegrees
/// (millionths of a degree, northing and easting respectively), and
/// altitude in millimeters above an abstract, application-specific
/// reference elevation.
#[derive(Clone, Copy, Debug, PartialEq, Eq, Structural)]
pub struct Point {
    pub lat_udeg: i64,
    pub lon_udeg: i64,
    pub alt_mm: i64,
}

impl Point {
    /// Builds a point; a missing altitude defaults to the reference
    /// elevation.
    pub fn new(lat_udeg: i64, lon_udeg: i64, alt_mm: Option<i64>) -> (r: Point)
        ensures
            r.lat_udeg == lat_udeg,
            r.lon_udeg == lon_udeg,
            alt_mm matches Some(a) ==> r.alt_mm == a,
            alt_mm is None ==> r.alt_mm == 0,
    {
        let alt: i64 = match alt_mm {
            Some(a) => a,
            None => 0,
        };
        Point { lat_udeg, lon_udeg, alt_mm: alt }
    }
}

} // verus!
