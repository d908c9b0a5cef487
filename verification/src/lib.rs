//! Scoring engine for straight-line navigation missions.
//!
//! A recorded track is compared against an intended straight geodesic (the
//! "target line"). The whole geometric engine — the ellipsoidal point model,
//! Vincenty's distance solver, the projection of each track point onto the
//! route, the per-point statistics, the medal rank and the segment profile
//! behind the percentage score — runs on exact integer quantities:
//! coordinates in nanodegrees, distances in millimetres, and Q3.60 fixed
//! point inside the numeric kernels. Only four transcendental functions come
//! from an outside crate; everything else is verified against specification
//! mirrors. The continuous penalty at the very end of the scoring pipeline
//! is floating point and stays with the caller.

pub mod burdell;
pub mod geo;
pub mod geowizard;
pub mod linalg;
pub mod q60;
pub mod slm;
pub mod stats;
pub mod wsg84;

use vstd::prelude::*;

use crate::geo::Geodesic;
use crate::geo::Sequence;
use crate::geo::Side;
use crate::geo::s_geodesic;
use crate::geo::s_project;
use crate::slm::Coordinates;
use crate::slm::Deviation;
use crate::slm::Error;
use crate::slm::Point;
use crate::slm::Progress;
use crate::slm::Slm;
use crate::stats::geodetic_distance;
use crate::wsg84::vincenty_result;

verus! {

/// The geodesic distance between two points at the engine's precision, with
/// a failed measurement degrading to zero.
pub open spec fn dist_or_zero(a: Coordinates, b: Coordinates) -> u64 {
    match vincenty_result(a, b, 100, 1000) {
        Some(d) => d,
        None => 0,
    }
}

/// A made-good distance clamped to the route's span.
pub open spec fn clamp_len(d: u64, len: u64) -> u64 {
    if d > len {
        len
    } else {
        d
    }
}

/// The mission record entry a track point turns into: on standby before the
/// route's start, arrived past its end, and en route within its span, with
/// the projection, the clamped made-good distance and the sided deviation.
/// A point whose projection is degenerate counts as on standby.
pub open spec fn point_of(start: Coordinates, len: u64, g: Geodesic, p: Coordinates) -> Point {
    match s_project(p, g) {
        None => Point { coordinates: p, progress: Progress::Standby },
        Some((proj, seq, side)) => Point {
            coordinates: p,
            progress: match seq {
                Sequence::BeforeStart => Progress::Standby,
                Sequence::AfterEnd => Progress::Arrived,
                Sequence::InBetween => Progress::EnRoute {
                    on_route: proj,
                    made_good: clamp_len(dist_or_zero(start, proj), len),
                    deviation: match side {
                        Side::Left => Some(Deviation::Left(dist_or_zero(proj, p))),
                        Side::Right => Some(Deviation::Right(dist_or_zero(proj, p))),
                        Side::Center => None,
                    },
                },
            },
        },
    }
}

/// The deviation a point contributes to the running maximum: its distance
/// to its projection when it lies within the route's span, zero otherwise.
pub open spec fn deviation_of(g: Geodesic, p: Coordinates) -> u64 {
    match s_project(p, g) {
        Some((proj, seq, _)) => if seq is InBetween {
            dist_or_zero(proj, p)
        } else {
            0
        },
        None => 0,
    }
}

/// The largest deviation of any track point within the route's span.
pub open spec fn max_deviation_of(g: Geodesic, track: Seq<Coordinates>) -> u64
    decreases track.len(),
{
    if track.len() == 0 {
        0
    } else {
        let rest = max_deviation_of(g, track.drop_last());
        let d = deviation_of(g, track.last());
        if d > rest {
            d
        } else {
            rest
        }
    }
}

fn entry_of_point(start: Coordinates, len: u64, g: Geodesic, p: Coordinates) -> (r: (
    Point,
    u64,
))
    requires
        start.valid(),
        p.valid(),
    ensures
        r.0 == point_of(start, len, g, p),
        r.1 == deviation_of(g, p),
{
    match p.project_onto(g) {
        None => (Point { coordinates: p, progress: Progress::Standby }, 0),
        Some((proj, sequence, side)) => {
            match sequence {
                Sequence::BeforeStart => (
                    Point { coordinates: p, progress: Progress::Standby },
                    0,
                ),
                Sequence::AfterEnd => (Point { coordinates: p, progress: Progress::Arrived }, 0),
                Sequence::InBetween => {
                    let dev: u64 = match geodetic_distance(proj, p) {
                        Some(d) => d,
                        None => 0,
                    };
                    let along: u64 = match geodetic_distance(start, proj) {
                        Some(d) => d,
                        None => 0,
                    };
                    let made_good: u64 = if along > len {
                        len
                    } else {
                        along
                    };
                    let deviation: Option<Deviation> = match side {
                        Side::Left => Some(Deviation::Left(dev)),
                        Side::Right => Some(Deviation::Right(dev)),
                        Side::Center => None,
                    };
                    (
                        Point {
                            coordinates: p,
                            progress: Progress::EnRoute { on_route: proj, made_good, deviation },
                        },
                        dev,
                    )
                },
            }
        },
    }
}

/// Analyze a straight line mission.
///
/// The route's length is measured once; a route whose ends are coincident or
/// antipodal has no usable target line and is rejected as degenerate. Every
/// track point is then projected onto the route: points before the start are
/// on standby, points past the end have arrived, and points within the span
/// record their projection, their clamped made-good distance and their
/// deviation, signed by the side of the route they strayed to. The worst
/// deviation within the span is kept as the mission's maximum.
#[verifier::loop_isolation(false)]
pub fn analyze(start: Coordinates, end: Coordinates, track: &Vec<Coordinates>) -> (r: Result<
    Slm,
    Error,
>)
    requires
        start.valid(),
        end.valid(),
        forall|i: int| 0 <= i < track@.len() ==> (#[trigger] track@[i]).valid(),
    ensures
        match r {
            Ok(slm) => {
                &&& slm.route_start == start
                &&& slm.route_end == end
                &&& vincenty_result(start, end, 100, 1000) == Some(slm.route_length)
                &&& s_geodesic(start, end) matches Some(g) && {
                    &&& slm.track@.len() == track@.len()
                    &&& forall|i: int|
                        0 <= i < track@.len() ==> slm.track@[i] == point_of(
                            start,
                            slm.route_length,
                            g,
                            track@[i],
                        )
                    &&& slm.max_deviation == max_deviation_of(g, track@)
                }
                &&& slm.wf()
            },
            Err(e) => e == Error::DegenerateRoute && (s_geodesic(start, end) is None
                || vincenty_result(start, end, 100, 1000) is None),
        },
{
    let g = match Geodesic::new(start, end) {
        Some(g) => g,
        None => {
            return Err(Error::DegenerateRoute);
        },
    };
    let len: u64 = match geodetic_distance(start, end) {
        Some(l) => l,
        None => {
            return Err(Error::DegenerateRoute);
        },
    };
    let n: usize = track.len();
    let mut points: Vec<Point> = Vec::new();
    let mut max_deviation: u64 = 0;
    for k in 0..n
        invariant
            points@.len() == k,
            forall|i: int| 0 <= i < k ==> points@[i] == point_of(start, len, g, track@[i]),
            max_deviation == max_deviation_of(g, track@.take(k as int)),
    {
        let p = track[k];
        proof {
            assert(track@.take(k as int + 1).drop_last() =~= track@.take(k as int));
            assert(track@.take(k as int + 1).last() == track@[k as int]);
            assert(track@[k as int].valid());
        }
        let (entry, dev) = entry_of_point(start, len, g, p);
        if dev > max_deviation {
            max_deviation = dev;
        }
        points.push(entry);
    }
    proof {
        assert(track@.take(n as int) =~= track@);
    }
    let slm = Slm {
        route_start: start,
        route_end: end,
        route_length: len,
        track: points,
        max_deviation,
    };
    proof {
        assert forall|i: int|
            0 <= i < slm.track@.len() implies (#[trigger] slm.track@[i]).bounded_by(
            slm.route_length,
        ) by {
            assert(slm.track@[i] == point_of(start, len, g, track@[i]));
        }
    }
    Ok(slm)
}

} // verus!
