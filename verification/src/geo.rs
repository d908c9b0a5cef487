//! The target line, and the projection of a track point onto it.
//!
//! A route is the plane through its two end points and the ellipsoid's
//! centre. A track point is classified by projecting it orthogonally onto
//! that plane: the sign of its component along the plane's unit normal gives
//! the side it lies on, and two triple products order the projection against
//! the route's ends. The geometry runs in the same checked Q3.60 fixed point
//! as the rest of the engine, so a degenerate configuration — coincident or
//! antipodal route ends, or a point at the route plane's pole — answers
//! `None` instead of feigning a projection.

use vstd::prelude::*;

use crate::linalg::Vector;
use crate::linalg::s_cross;
use crate::linalg::s_dot;
use crate::linalg::s_unit;
use crate::linalg::s_vmul;
use crate::linalg::s_vsub;
use crate::slm::Coordinates;
use crate::wsg84::s_to_point;
use crate::wsg84::s_to_vector;

verus! {

/// The side of the route a point lies on, looking from the start towards the
/// end of the route.
#[derive(Debug, Clone, Copy, PartialEq, Eq, Structural)]
pub enum Side {
    Left,
    Right,
    Center,
}

/// The position of a projected point along the route, relative to its start
/// and end.
#[derive(Debug, Clone, Copy, PartialEq, Eq, Structural)]
pub enum Sequence {
    BeforeStart,
    AfterEnd,
    InBetween,
}

/// A route: the cartesian positions of its two ends, and the unit normal of
/// the plane holding them and the ellipsoid's centre.
#[derive(Debug, Clone, Copy, PartialEq, Eq, Structural)]
pub struct Geodesic {
    pub v_start: Vector,
    pub v_end: Vector,
    pub v_normal: Vector,
}

/// The route two end points define, or `None` when they are coincident or
/// antipodal and span no plane.
pub open spec fn s_geodesic(start: Coordinates, end: Coordinates) -> Option<Geodesic> {
    match (s_to_vector(start), s_to_vector(end)) {
        (Some(vs), Some(ve)) => match s_unit(s_cross(Some(ve), Some(vs))) {
            Some(n) => Some(Geodesic { v_start: vs, v_end: ve, v_normal: n }),
            None => None,
        },
        _ => None,
    }
}

impl Geodesic {
    /// Build the route between two points.
    pub fn new(start: Coordinates, end: Coordinates) -> (r: Option<Geodesic>)
        requires
            start.valid(),
            end.valid(),
        ensures
            r == s_geodesic(start, end),
    {
        let vs = match start.as_wsg84_vector() {
            Some(v) => v,
            None => {
                return None;
            },
        };
        let ve = match end.as_wsg84_vector() {
            Some(v) => v,
            None => {
                return None;
            },
        };
        let cr = match ve.cross(vs) {
            Some(v) => v,
            None => {
                return None;
            },
        };
        match cr.to_unit() {
            Some(n) => Some(Geodesic { v_start: vs, v_end: ve, v_normal: n }),
            None => None,
        }
    }
}

/// The projection of a point onto a route: the projected position, its order
/// against the route's ends, and the side the point lies on. A negative
/// start test wins over a positive end test: the point counts as before the
/// start even when both tests would match.
pub open spec fn s_project(p: Coordinates, g: Geodesic) -> Option<(Coordinates, Sequence, Side)> {
    let vp_o = s_to_vector(p);
    let f_o = s_dot(vp_o, Some(g.v_normal));
    let proj_o = s_vsub(vp_o, s_vmul(Some(g.v_normal), f_o));
    let h1_o = s_dot(s_cross(proj_o, Some(g.v_start)), Some(g.v_normal));
    let h2_o = s_dot(s_cross(proj_o, Some(g.v_end)), Some(g.v_normal));
    let pt_o = s_to_point(proj_o);
    match (f_o, h1_o, h2_o, pt_o) {
        (Some(f), Some(h1), Some(h2), Some(pt)) => Some(
            (
                pt,
                if h1 < 0 {
                    Sequence::BeforeStart
                } else if h2 > 0 {
                    Sequence::AfterEnd
                } else {
                    Sequence::InBetween
                },
                if f > 0 {
                    Side::Right
                } else if f < 0 {
                    Side::Left
                } else {
                    Side::Center
                },
            ),
        ),
        _ => None,
    }
}

impl Coordinates {
    /// Project the point orthogonally onto a route.
    ///
    /// Returns the projected point on the route, the order of the projection
    /// with regards to the route's start and end, and the side of the
    /// original point from the start, looking towards the end.
    pub fn project_onto(self, geodesic: Geodesic) -> (r: Option<(Coordinates, Sequence, Side)>)
        requires
            self.valid(),
        ensures
            r == s_project(self, geodesic),
            r matches Some(t) ==> t.0.valid(),
    {
        let vp = match self.as_wsg84_vector() {
            Some(v) => v,
            None => {
                return None;
            },
        };
        let f = match vp.dot(geodesic.v_normal) {
            Some(v) => v,
            None => {
                return None;
            },
        };
        let scaled = match geodesic.v_normal.mul(f) {
            Some(v) => v,
            None => {
                return None;
            },
        };
        let v_projection = match vp.sub(scaled) {
            Some(v) => v,
            None => {
                return None;
            },
        };
        let c1 = match v_projection.cross(geodesic.v_start) {
            Some(v) => v,
            None => {
                return None;
            },
        };
        let h1 = match c1.dot(geodesic.v_normal) {
            Some(v) => v,
            None => {
                return None;
            },
        };
        let c2 = match v_projection.cross(geodesic.v_end) {
            Some(v) => v,
            None => {
                return None;
            },
        };
        let h2 = match c2.dot(geodesic.v_normal) {
            Some(v) => v,
            None => {
                return None;
            },
        };
        let pt = match v_projection.as_wsg84_point() {
            Some(c) => c,
            None => {
                return None;
            },
        };
        let sequence = if h1 < 0 {
            Sequence::BeforeStart
        } else if h2 > 0 {
            Sequence::AfterEnd
        } else {
            Sequence::InBetween
        };
        let side = if f > 0 {
            Side::Right
        } else if f < 0 {
            Side::Left
        } else {
            Side::Center
        };
        Some((pt, sequence, side))
    }
}

} // verus!
