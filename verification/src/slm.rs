//! The record of an analyzed straight line mission.

use vstd::prelude::*;

verus! {

/// Largest valid latitude, in nanodegrees (90 degrees north).
pub const LAT_LIMIT: i64 = 90_000_000_000;

/// Largest valid longitude, in nanodegrees (180 degrees east).
pub const LON_LIMIT: i64 = 180_000_000_000;

/// Why a request was rejected.
#[derive(Debug, Clone, Copy, PartialEq, Eq, Structural)]
pub enum Error {
    /// A latitude or longitude lies outside its valid range.
    InvalidCoordinate,
    /// The route's ends coincide or are antipodal: it has no usable length.
    DegenerateRoute,
}

/// A geographical position, in integer nanodegrees; north and east as
/// positive values, south and west as negative values.
#[derive(Debug, Clone, Copy, PartialEq, Eq, Structural)]
pub struct Coordinates {
    /// Latitude in nanodegrees, in `[-LAT_LIMIT, LAT_LIMIT]`.
    pub latitude: i64,
    /// Longitude in nanodegrees, in `(-LON_LIMIT, LON_LIMIT]`.
    pub longitude: i64,
}

impl Coordinates {
    /// Both values lie in their valid range.
    pub open spec fn valid(self) -> bool {
        &&& -LAT_LIMIT <= self.latitude <= LAT_LIMIT
        &&& -LON_LIMIT < self.longitude <= LON_LIMIT
    }

    /// Build a position from nanodegree values, rejecting out-of-range ones.
    pub fn new(latitude: i64, longitude: i64) -> (r: Result<Coordinates, Error>)
        ensures
            match r {
                Ok(c) => c == (Coordinates { latitude, longitude }) && c.valid(),
                Err(e) => e == Error::InvalidCoordinate && !(Coordinates {
                    latitude,
                    longitude,
                }).valid(),
            },
    {
        if -LAT_LIMIT <= latitude && latitude <= LAT_LIMIT && -LON_LIMIT < longitude && longitude
            <= LON_LIMIT {
            Ok(Coordinates { latitude, longitude })
        } else {
            Err(Error::InvalidCoordinate)
        }
    }
}

/// How far off the route a point is, in millimetres, and on which side.
#[derive(Debug, Clone, Copy, PartialEq, Eq, Structural)]
pub enum Deviation {
    Left(u64),
    Right(u64),
}

/// A track point's progress along the mission.
#[derive(Debug, Clone, Copy, PartialEq, Eq, Structural)]
pub enum Progress {
    /// The point projects before the route's start.
    Standby,
    /// The point projects within the route's span.
    EnRoute {
        /// The point's projection onto the route.
        on_route: Coordinates,
        /// Distance covered along the route, in millimetres.
        made_good: u64,
        /// Offset from the route; `None` when the point is dead centre.
        deviation: Option<Deviation>,
    },
    /// The point projects past the route's end.
    Arrived,
}

/// A track point together with its analysis.
#[derive(Debug, Clone, Copy, PartialEq, Eq, Structural)]
pub struct Point {
    pub coordinates: Coordinates,
    pub progress: Progress,
}

/// An analyzed straight line mission: the route, the analyzed track and the
/// worst deviation seen along it. All distances are in millimetres.
#[derive(Debug, Clone)]
pub struct Slm {
    pub route_start: Coordinates,
    pub route_end: Coordinates,
    /// Length of the route, in millimetres.
    pub route_length: u64,
    pub track: Vec<Point>,
    /// Largest deviation of any point within the route's span, in
    /// millimetres.
    pub max_deviation: u64,
}

impl Point {
    /// The point lies within the route's span and has covered no more than
    /// `route_length` of it.
    pub open spec fn bounded_by(self, route_length: u64) -> bool {
        self.progress matches Progress::EnRoute { made_good, .. } ==> made_good <= route_length
    }
}

impl Slm {
    /// Every point's made-good distance stays within the route's length.
    pub open spec fn wf(self) -> bool {
        forall|i: int|
            0 <= i < self.track@.len() ==> (#[trigger] self.track@[i]).bounded_by(
                self.route_length,
            )
    }
}

} // verus!
