//! Per-point and track-level statistics against the target line.

use vstd::prelude::*;

use crate::clamp_len;
use crate::deviation_of;
use crate::dist_or_zero;
use crate::geo::Geodesic;
use crate::geo::Sequence;
use crate::geo::s_geodesic;
use crate::geo::s_project;
use crate::max_deviation_of;
use crate::slm::Coordinates;
use crate::slm::Error;
use crate::wsg84::vincenty_inverse;
use crate::wsg84::vincenty_result;

verus! {

/// Vincenty's inverse formula with the required precision: at most 100
/// turns, a convergence margin of a thousand picoradians.
pub fn geodetic_distance(p1: Coordinates, p2: Coordinates) -> (r: Option<u64>)
    requires
        p1.valid(),
        p2.valid(),
    ensures
        r == vincenty_result(p1, p2, 100, 1000),
        p1 == p2 ==> r == Some(0u64),
{
    vincenty_inverse(p1, p2, 100, 1000)
}

/// Statistics of one track point, in millimetres.
#[derive(Debug, Clone, Copy, PartialEq, Eq, Structural)]
pub struct PointStats {
    /// Geodesic distance from the point to its projection on the route; zero
    /// for points outside the route's span.
    pub deviation: u64,
    /// Distance along the route from its start to the point's projection,
    /// clamped to the route's length.
    pub made_good: u64,
}

/// Statistics of a whole track, in millimetres.
#[derive(Debug, Clone)]
pub struct TrackStats {
    /// Length of the route.
    pub route_length: u64,
    /// Largest deviation of any point within the route's span.
    pub max_deviation: u64,
    /// Per-point statistics, in track order.
    pub points: Vec<PointStats>,
}

/// The statistics a track point turns into: points before the start count
/// as not yet started, points past the end as fully covered, and points
/// within the span keep their measured distances. A point whose projection
/// is degenerate counts as not yet started.
pub open spec fn stats_of(start: Coordinates, len: u64, g: Geodesic, p: Coordinates) -> PointStats {
    match s_project(p, g) {
        None => PointStats { deviation: 0, made_good: 0 },
        Some((proj, seq, _)) => match seq {
            Sequence::BeforeStart => PointStats { deviation: 0, made_good: 0 },
            Sequence::AfterEnd => PointStats { deviation: 0, made_good: len },
            Sequence::InBetween => PointStats {
                deviation: dist_or_zero(proj, p),
                made_good: clamp_len(dist_or_zero(start, proj), len),
            },
        },
    }
}

fn stat_of_point(start: Coordinates, len: u64, g: Geodesic, p: Coordinates) -> (r: (
    PointStats,
    u64,
))
    requires
        start.valid(),
        p.valid(),
    ensures
        r.0 == stats_of(start, len, g, p),
        r.1 == deviation_of(g, p),
{
    match p.project_onto(g) {
        None => (PointStats { deviation: 0, made_good: 0 }, 0),
        Some((proj, sequence, _side)) => {
            match sequence {
                Sequence::BeforeStart => (PointStats { deviation: 0, made_good: 0 }, 0),
                Sequence::AfterEnd => (PointStats { deviation: 0, made_good: len }, 0),
                Sequence::InBetween => {
                    let dev: u64 = match geodetic_distance(proj, p) {
                        Some(d) => d,
                        None => 0,
                    };
                    let along: u64 = match geodetic_distance(start, proj) {
                        Some(d) => d,
                        None => 0,
                    };
                    let made_good: u64 = if along > len {
                        len
                    } else {
                        along
                    };
                    (PointStats { deviation: dev, made_good }, dev)
                },
            }
        },
    }
}

/// Compute statistics for the route and every given point.
///
/// The route's length is measured once; a route whose ends are coincident
/// or antipodal has no usable target line and is rejected as degenerate.
#[verifier::loop_isolation(false)]
#[verifier::rlimit(60)]
pub fn compute_stats(route: (Coordinates, Coordinates), track: &Vec<Coordinates>) -> (r: Result<
    TrackStats,
    Error,
>)
    requires
        route.0.valid(),
        route.1.valid(),
        forall|i: int| 0 <= i < track@.len() ==> (#[trigger] track@[i]).valid(),
    ensures
        match r {
            Ok(stats) => {
                &&& vincenty_result(route.0, route.1, 100, 1000) == Some(stats.route_length)
                &&& s_geodesic(route.0, route.1) matches Some(g) && {
                    &&& stats.points@.len() == track@.len()
                    &&& forall|i: int|
                        0 <= i < track@.len() ==> stats.points@[i] == stats_of(
                            route.0,
                            stats.route_length,
                            g,
                            track@[i],
                        )
                    &&& stats.max_deviation == max_deviation_of(g, track@)
                }
            },
            Err(e) => e == Error::DegenerateRoute && (s_geodesic(route.0, route.1) is None
                || vincenty_result(route.0, route.1, 100, 1000) is None),
        },
{
    let (start, end) = route;
    let g = match Geodesic::new(start, end) {
        Some(g) => g,
        None => {
            return Err(Error::DegenerateRoute);
        },
    };
    let len: u64 = match geodetic_distance(start, end) {
        Some(l) => l,
        None => {
            return Err(Error::DegenerateRoute);
        },
    };
    let n: usize = track.len();
    let mut points: Vec<PointStats> = Vec::new();
    let mut max_deviation: u64 = 0;
    for k in 0..n
        invariant
            points@.len() == k,
            forall|i: int| 0 <= i < k ==> points@[i] == stats_of(start, len, g, track@[i]),
            max_deviation == max_deviation_of(g, track@.take(k as int)),
    {
        let p = track[k];
        proof {
            assert(track@.take(k as int + 1).drop_last() =~= track@.take(k as int));
            assert(track@.take(k as int + 1).last() == track@[k as int]);
            assert(track@[k as int].valid());
        }
        let (st, dev) = stat_of_point(start, len, g, p);
        if dev > max_deviation {
            max_deviation = dev;
        }
        points.push(st);
    }
    proof {
        assert(track@.take(n as int) =~= track@);
    }
    Ok(TrackStats { route_length: len, max_deviation, points })
}

} // verus!
