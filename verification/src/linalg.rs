//! 3D vector algebra over Q3.60 fixed point.
//!
//! Vectors here live on the unit-scaled ellipsoid — every coordinate stays
//! within a few units of zero — so the Q3.60 range is ample. As everywhere
//! in the fixed-point layer, an operation that would leave the range
//! answers `None`, and each executable method is pinned to a specification
//! mirror.

use vstd::prelude::*;

use crate::q60::fadd;
use crate::q60::fdiv;
use crate::q60::fmul;
use crate::q60::fsqrt;
use crate::q60::fsub;
use crate::q60::s_abs;
use crate::q60::s_add;
use crate::q60::s_div;
use crate::q60::s_mul;
use crate::q60::s_sqrt;
use crate::q60::s_sub;

verus! {

/// A 3D vector, components in Q3.60.
#[derive(Debug, Clone, Copy, PartialEq, Eq, Structural)]
pub struct Vector {
    pub x: i64,
    pub y: i64,
    pub z: i64,
}

/// The cross product, component by component.
pub open spec fn s_cross(a: Option<Vector>, b: Option<Vector>) -> Option<Vector> {
    match (a, b) {
        (Some(u), Some(v)) => {
            let x = s_sub(s_mul(Some(u.y), Some(v.z)), s_mul(Some(u.z), Some(v.y)));
            let y = s_sub(s_mul(Some(u.z), Some(v.x)), s_mul(Some(u.x), Some(v.z)));
            let z = s_sub(s_mul(Some(u.x), Some(v.y)), s_mul(Some(u.y), Some(v.x)));
            match (x, y, z) {
                (Some(xv), Some(yv), Some(zv)) => Some(Vector { x: xv, y: yv, z: zv }),
                _ => None,
            }
        },
        _ => None,
    }
}

/// The dot product.
pub open spec fn s_dot(a: Option<Vector>, b: Option<Vector>) -> Option<i64> {
    match (a, b) {
        (Some(u), Some(v)) => s_add(
            s_add(s_mul(Some(u.x), Some(v.x)), s_mul(Some(u.y), Some(v.y))),
            s_mul(Some(u.z), Some(v.z)),
        ),
        _ => None,
    }
}

/// The difference, component by component.
pub open spec fn s_vsub(a: Option<Vector>, b: Option<Vector>) -> Option<Vector> {
    match (a, b) {
        (Some(u), Some(v)) => {
            let x = s_sub(Some(u.x), Some(v.x));
            let y = s_sub(Some(u.y), Some(v.y));
            let z = s_sub(Some(u.z), Some(v.z));
            match (x, y, z) {
                (Some(xv), Some(yv), Some(zv)) => Some(Vector { x: xv, y: yv, z: zv }),
                _ => None,
            }
        },
        _ => None,
    }
}

/// The scaling of a vector by a factor.
pub open spec fn s_vmul(a: Option<Vector>, k: Option<i64>) -> Option<Vector> {
    match (a, k) {
        (Some(u), Some(f)) => {
            let x = s_mul(Some(u.x), Some(f));
            let y = s_mul(Some(u.y), Some(f));
            let z = s_mul(Some(u.z), Some(f));
            match (x, y, z) {
                (Some(xv), Some(yv), Some(zv)) => Some(Vector { x: xv, y: yv, z: zv }),
                _ => None,
            }
        },
        _ => None,
    }
}

/// The euclidean length.
pub open spec fn s_vlen(a: Option<Vector>) -> Option<i64> {
    s_sqrt(s_dot(a, a))
}

/// Half the fixed-point unit.
pub const HALF_Q60: i64 = 576_460_752_303_423_488;

/// Every component is smaller in magnitude than one half.
pub open spec fn s_small(v: Vector) -> bool {
    &&& s_abs(v.x as int) < HALF_Q60
    &&& s_abs(v.y as int) < HALF_Q60
    &&& s_abs(v.z as int) < HALF_Q60
}

/// The vector doubled, component by component.
pub open spec fn s_double(v: Vector) -> Option<Vector> {
    let x = s_add(Some(v.x), Some(v.x));
    let y = s_add(Some(v.y), Some(v.y));
    let z = s_add(Some(v.z), Some(v.z));
    match (x, y, z) {
        (Some(xv), Some(yv), Some(zv)) => Some(Vector { x: xv, y: yv, z: zv }),
        _ => None,
    }
}

/// The vector doubled until some component reaches one half in magnitude —
/// an exact rescaling that keeps its direction but lifts a short vector out
/// of the range where normalizing would lose precision.
pub open spec fn s_grow(v: Vector, fuel: nat) -> Vector
    decreases fuel,
{
    if fuel == 0 {
        v
    } else if s_small(v) {
        match s_double(v) {
            Some(w) => s_grow(w, (fuel - 1) as nat),
            None => v,
        }
    } else {
        v
    }
}

/// The unit vector of the same direction: the vector is first rescaled
/// exactly, then each component is divided by its length.
pub open spec fn s_unit(a: Option<Vector>) -> Option<Vector> {
    match a {
        Some(v) => {
            let w = s_grow(v, 62);
            match s_vlen(Some(w)) {
                Some(l) => {
                    let x = s_div(Some(w.x), Some(l));
                    let y = s_div(Some(w.y), Some(l));
                    let z = s_div(Some(w.z), Some(l));
                    match (x, y, z) {
                        (Some(xv), Some(yv), Some(zv)) => Some(Vector { x: xv, y: yv, z: zv }),
                        _ => None,
                    }
                },
                None => None,
            }
        },
        None => None,
    }
}

impl Vector {
    /// Cross product.
    pub fn cross(self, other: Vector) -> (r: Option<Vector>)
        ensures
            r == s_cross(Some(self), Some(other)),
    {
        let x = fsub(fmul(Some(self.y), Some(other.z)), fmul(Some(self.z), Some(other.y)));
        let y = fsub(fmul(Some(self.z), Some(other.x)), fmul(Some(self.x), Some(other.z)));
        let z = fsub(fmul(Some(self.x), Some(other.y)), fmul(Some(self.y), Some(other.x)));
        match (x, y, z) {
            (Some(xv), Some(yv), Some(zv)) => Some(Vector { x: xv, y: yv, z: zv }),
            _ => None,
        }
    }

    /// Dot product.
    pub fn dot(self, other: Vector) -> (r: Option<i64>)
        ensures
            r == s_dot(Some(self), Some(other)),
    {
        fadd(
            fadd(fmul(Some(self.x), Some(other.x)), fmul(Some(self.y), Some(other.y))),
            fmul(Some(self.z), Some(other.z)),
        )
    }

    /// Subtraction.
    pub fn sub(self, other: Vector) -> (r: Option<Vector>)
        ensures
            r == s_vsub(Some(self), Some(other)),
    {
        let x = fsub(Some(self.x), Some(other.x));
        let y = fsub(Some(self.y), Some(other.y));
        let z = fsub(Some(self.z), Some(other.z));
        match (x, y, z) {
            (Some(xv), Some(yv), Some(zv)) => Some(Vector { x: xv, y: yv, z: zv }),
            _ => None,
        }
    }

    /// Scaling.
    pub fn mul(self, factor: i64) -> (r: Option<Vector>)
        ensures
            r == s_vmul(Some(self), Some(factor)),
    {
        let x = fmul(Some(self.x), Some(factor));
        let y = fmul(Some(self.y), Some(factor));
        let z = fmul(Some(self.z), Some(factor));
        match (x, y, z) {
            (Some(xv), Some(yv), Some(zv)) => Some(Vector { x: xv, y: yv, z: zv }),
            _ => None,
        }
    }

    /// Length.
    pub fn len(self) -> (r: Option<i64>)
        ensures
            r == s_vlen(Some(self)),
    {
        fsqrt(self.dot(self))
    }

    /// Convert to a unit vector with the same direction.
    #[verifier::loop_isolation(false)]
    pub fn to_unit(self) -> (r: Option<Vector>)
        ensures
            r == s_unit(Some(self)),
    {
        let mut w = self;
        for k in 0..62u32
            invariant
                s_grow(w, (62 - k) as nat) == s_grow(self, 62nat),
        {
            let sx: bool = -HALF_Q60 < w.x && w.x < HALF_Q60;
            let sy: bool = -HALF_Q60 < w.y && w.y < HALF_Q60;
            let sz: bool = -HALF_Q60 < w.z && w.z < HALF_Q60;
            if sx && sy && sz {
                proof {
                    assert(s_grow(w, (62 - k) as nat) == s_grow(
                        (s_double(w))->0,
                        (62 - (k + 1)) as nat,
                    ));
                }
                w = Vector { x: w.x + w.x, y: w.y + w.y, z: w.z + w.z };
            } else {
                proof {
                    assert(s_grow(w, (62 - k) as nat) == w);
                    assert(s_grow(w, (62 - (k + 1)) as nat) == w);
                }
            }
        }
        proof {
            assert(s_grow(w, 0nat) == w);
        }
        let l = match w.len() {
            Some(l) => l,
            None => {
                return None;
            },
        };
        let x = fdiv(Some(w.x), Some(l));
        let y = fdiv(Some(w.y), Some(l));
        let z = fdiv(Some(w.z), Some(l));
        match (x, y, z) {
            (Some(xv), Some(yv), Some(zv)) => Some(Vector { x: xv, y: yv, z: zv }),
            _ => None,
        }
    }
}

} // verus!
