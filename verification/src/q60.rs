//! Q3.60 fixed-point arithmetic, and its trusted transcendental kernels.
//!
//! A value is an `i64` holding its magnitude times 2^60: a range of ±8 and a
//! resolution below 1e-18. Every operation is checked — one that would leave
//! the representable range answers `None` — and mirrored by a specification
//! function, so a caller's proof follows each computation exactly. The four
//! transcendental kernels (sine, cosine, arctangent, square root) come from
//! an outside crate; their results are named, never restated.

use vstd::prelude::*;

verus! {

/// The fixed-point unit: 1.0 in Q3.60.
pub const ONE_Q60: i64 = 1_152_921_504_606_846_976;

/// 2.0 in Q3.60.
pub const TWO_Q60: i64 = 2_305_843_009_213_693_952;

/// 3.0 in Q3.60.
pub const THREE_Q60: i64 = 3_458_764_513_820_540_928;

/// 4.0 in Q3.60.
pub const FOUR_Q60: i64 = 4_611_686_018_427_387_904;

/// The circle constant, rounded to Q3.60.
pub const PI_Q60: i64 = 3_622_009_729_038_561_421;

/// Half the circle constant, in Q3.60 (`PI_Q60` halved, rounded down).
pub const FRAC_PI_2_Q60: i64 = 1_811_004_864_519_280_710;

/// Minus half the circle constant, in Q3.60.
pub const NEG_FRAC_PI_2_Q60: i64 = -1_811_004_864_519_280_710;

/// Magnitude of a mathematical integer.
pub open spec fn s_abs(a: int) -> int {
    if a < 0 {
        -a
    } else {
        a
    }
}

/// Division truncated towards zero, as the machine's division computes it.
pub open spec fn tdiv(x: int, d: int) -> int
    recommends
        d != 0,
{
    if x == 0 {
        0
    } else if x > 0 && d > 0 {
        x / d
    } else if x < 0 && d < 0 {
        (x * -1) / (d * -1)
    } else if x < 0 {
        ((x * -1) / d) * -1
    } else {
        (x / (d * -1)) * -1
    }
}

/// The value fits an `i64`.
pub open spec fn in_i64(v: int) -> bool {
    i64::MIN <= v <= i64::MAX
}

/// Fixed-point product, or `None` when it leaves the representable range.
pub open spec fn s_mul(a: Option<i64>, b: Option<i64>) -> Option<i64> {
    match (a, b) {
        (Some(x), Some(y)) => {
            let q = tdiv(x as int * y as int, ONE_Q60 as int);
            if in_i64(q) {
                Some(q as i64)
            } else {
                None
            }
        },
        _ => None,
    }
}

/// Fixed-point quotient, or `None` on a zero divisor or overflow.
pub open spec fn s_div(a: Option<i64>, b: Option<i64>) -> Option<i64> {
    match (a, b) {
        (Some(x), Some(y)) => {
            if y == 0 {
                None
            } else {
                let q = tdiv(x as int * ONE_Q60 as int, y as int);
                if in_i64(q) {
                    Some(q as i64)
                } else {
                    None
                }
            }
        },
        _ => None,
    }
}

/// Fixed-point sum, or `None` on overflow.
pub open spec fn s_add(a: Option<i64>, b: Option<i64>) -> Option<i64> {
    match (a, b) {
        (Some(x), Some(y)) => {
            if in_i64(x + y) {
                Some((x + y) as i64)
            } else {
                None
            }
        },
        _ => None,
    }
}

/// Fixed-point difference, or `None` on overflow.
pub open spec fn s_sub(a: Option<i64>, b: Option<i64>) -> Option<i64> {
    match (a, b) {
        (Some(x), Some(y)) => {
            if in_i64(x - y) {
                Some((x - y) as i64)
            } else {
                None
            }
        },
        _ => None,
    }
}

/// Fixed-point value divided by a small positive integer; never overflows.
pub open spec fn s_divk(a: Option<i64>, k: i64) -> Option<i64>
    recommends
        k > 0,
{
    match a {
        Some(x) => Some(tdiv(x as int, k as int) as i64),
        None => None,
    }
}

pub(crate) fn fmul(a: Option<i64>, b: Option<i64>) -> (r: Option<i64>)
    ensures
        r == s_mul(a, b),
{
    match (a, b) {
        (Some(x), Some(y)) => {
            proof {
                assert((x as int) * (y as int) <= 0x4000_0000_0000_0000_0000_0000_0000_0000int
                    && (x as int) * (y as int) >= -0x4000_0000_0000_0000_0000_0000_0000_0000int)
                    by (nonlinear_arith);
            }
            let p: i128 = (x as i128) * (y as i128);
            match p.checked_div(ONE_Q60 as i128) {
                Some(q) => {
                    if q >= i64::MIN as i128 && q <= i64::MAX as i128 {
                        Some(q as i64)
                    } else {
                        None
                    }
                },
                None => {
                    proof {
                        assert(false);
                    }
                    None
                },
            }
        },
        _ => None,
    }
}

pub(crate) fn fdiv(a: Option<i64>, b: Option<i64>) -> (r: Option<i64>)
    ensures
        r == s_div(a, b),
{
    match (a, b) {
        (Some(x), Some(y)) => {
            if y == 0 {
                None
            } else {
                let p: i128 = (x as i128) * (ONE_Q60 as i128);
                match p.checked_div(y as i128) {
                    Some(q) => {
                        if q >= i64::MIN as i128 && q <= i64::MAX as i128 {
                            Some(q as i64)
                        } else {
                            None
                        }
                    },
                    None => {
                        proof {
                            assert(false);
                        }
                        None
                    },
                }
            }
        },
        _ => None,
    }
}

pub(crate) fn fadd(a: Option<i64>, b: Option<i64>) -> (r: Option<i64>)
    ensures
        r == s_add(a, b),
{
    match (a, b) {
        (Some(x), Some(y)) => {
            let s: i128 = (x as i128) + (y as i128);
            if s >= i64::MIN as i128 && s <= i64::MAX as i128 {
                Some(s as i64)
            } else {
                None
            }
        },
        _ => None,
    }
}

pub(crate) fn fsub(a: Option<i64>, b: Option<i64>) -> (r: Option<i64>)
    ensures
        r == s_sub(a, b),
{
    match (a, b) {
        (Some(x), Some(y)) => {
            let s: i128 = (x as i128) - (y as i128);
            if s >= i64::MIN as i128 && s <= i64::MAX as i128 {
                Some(s as i64)
            } else {
                None
            }
        },
        _ => None,
    }
}

pub(crate) fn fdivk(a: Option<i64>, k: i64) -> (r: Option<i64>)
    requires
        k > 0,
    ensures
        r == s_divk(a, k),
{
    match a {
        Some(x) => {
            match x.checked_div(k) {
                Some(q) => Some(q),
                None => {
                    proof {
                        assert(false);
                    }
                    None
                },
            }
        },
        None => None,
    }
}

/// What `cordic::sin` returns for a Q3.60 angle, as bits.
pub uninterp spec fn sin_q60(x: i64) -> i64;

/// What `cordic::cos` returns for a Q3.60 angle, as bits.
pub uninterp spec fn cos_q60(x: i64) -> i64;

/// What `cordic::atan` returns for a Q3.60 ratio in [-1, 1], as bits.
pub uninterp spec fn atan_q60(x: i64) -> i64;

/// What `cordic::sqrt` returns for a Q3.60 value in [0, 1), as bits.
pub uninterp spec fn sqrt_q60(x: i64) -> i64;

/// Relies on cordic::sin over fixed::FixedI64<U60>: defined for every angle
/// the type can hold, and a function of its argument alone.
#[verifier::external_body]
pub(crate) fn cordic_sin(x: i64) -> (r: i64)
    ensures
        r == sin_q60(x),
{
    cordic::sin(fixed::FixedI64::<fixed::types::extra::U60>::from_bits(x)).to_bits()
}

/// Relies on cordic::cos over fixed::FixedI64<U60>: defined for every angle
/// the type can hold, and a function of its argument alone.
#[verifier::external_body]
pub(crate) fn cordic_cos(x: i64) -> (r: i64)
    ensures
        r == cos_q60(x),
{
    cordic::cos(fixed::FixedI64::<fixed::types::extra::U60>::from_bits(x)).to_bits()
}

/// Relies on cordic::atan over fixed::FixedI64<U60>. For a ratio within
/// [-1, 1] its intermediate vector stays well inside the type's range, and
/// the accumulated angle is bounded by the arctangent table's sum, below 2.
#[verifier::external_body]
pub(crate) fn cordic_atan(x: i64) -> (r: i64)
    requires
        -ONE_Q60 <= x <= ONE_Q60,
    ensures
        r == atan_q60(x),
        -TWO_Q60 <= r <= TWO_Q60,
{
    cordic::atan(fixed::FixedI64::<fixed::types::extra::U60>::from_bits(x)).to_bits()
}

/// Relies on cordic::sqrt over fixed::FixedI64<U60>. For an argument within
/// [0, 1) its bit-refinement keeps every candidate below one, so the result
/// lies in [0, 1) too and no intermediate square leaves the type's range.
#[verifier::external_body]
pub(crate) fn cordic_sqrt(x: i64) -> (r: i64)
    requires
        0 <= x < ONE_Q60,
    ensures
        r == sqrt_q60(x),
        0 <= r < ONE_Q60,
{
    cordic::sqrt(fixed::FixedI64::<fixed::types::extra::U60>::from_bits(x)).to_bits()
}

/// Sine lifted over the checked domain.
pub open spec fn s_sin(a: Option<i64>) -> Option<i64> {
    match a {
        Some(x) => Some(sin_q60(x)),
        None => None,
    }
}

/// Cosine lifted over the checked domain.
pub open spec fn s_cos(a: Option<i64>) -> Option<i64> {
    match a {
        Some(x) => Some(cos_q60(x)),
        None => None,
    }
}

/// Arctangent lifted over the checked domain: defined on [-1, 1] only.
pub open spec fn s_atan(a: Option<i64>) -> Option<i64> {
    match a {
        Some(x) => if -ONE_Q60 <= x <= ONE_Q60 {
            Some(atan_q60(x))
        } else {
            None
        },
        None => None,
    }
}

/// Square root lifted over the checked domain: negative arguments fail,
/// arguments of one and above are scaled through sqrt(x) = 4 sqrt(x/16).
pub open spec fn s_sqrt(a: Option<i64>) -> Option<i64> {
    match a {
        Some(x) => if x < 0 {
            None
        } else if x < ONE_Q60 {
            Some(sqrt_q60(x))
        } else {
            Some((4 * sqrt_q60(tdiv(x as int, 16) as i64)) as i64)
        },
        None => None,
    }
}

pub(crate) fn fsin(a: Option<i64>) -> (r: Option<i64>)
    ensures
        r == s_sin(a),
{
    match a {
        Some(x) => Some(cordic_sin(x)),
        None => None,
    }
}

pub(crate) fn fcos(a: Option<i64>) -> (r: Option<i64>)
    ensures
        r == s_cos(a),
{
    match a {
        Some(x) => Some(cordic_cos(x)),
        None => None,
    }
}

pub(crate) fn fatan(a: Option<i64>) -> (r: Option<i64>)
    ensures
        r == s_atan(a),
{
    match a {
        Some(x) => {
            if -ONE_Q60 <= x && x <= ONE_Q60 {
                Some(cordic_atan(x))
            } else {
                None
            }
        },
        None => None,
    }
}

pub(crate) fn fsqrt(a: Option<i64>) -> (r: Option<i64>)
    ensures
        r == s_sqrt(a),
{
    match a {
        Some(x) => {
            if x < 0 {
                None
            } else if x < ONE_Q60 {
                Some(cordic_sqrt(x))
            } else {
                let q: i64 = x / 16;
                Some(4 * cordic_sqrt(q))
            }
        },
        None => None,
    }
}

/// Quadrant-aware arctangent of `y/x`, built so that the ratio handed to the
/// kernel never exceeds one in magnitude.
pub open spec fn s_atan2(y: Option<i64>, x: Option<i64>) -> Option<i64> {
    match (y, x) {
        (Some(yv), Some(xv)) => {
            if yv == 0 && xv == 0 {
                Some(0i64)
            } else if s_abs(yv as int) <= s_abs(xv as int) {
                match s_atan(s_div(y, x)) {
                    Some(r) => if xv > 0 {
                        Some(r)
                    } else if yv >= 0 {
                        s_add(Some(r), Some(PI_Q60))
                    } else {
                        s_sub(Some(r), Some(PI_Q60))
                    },
                    None => None,
                }
            } else {
                match s_atan(s_div(x, y)) {
                    Some(r) => if yv > 0 {
                        s_sub(Some(FRAC_PI_2_Q60), Some(r))
                    } else {
                        s_sub(Some(NEG_FRAC_PI_2_Q60), Some(r))
                    },
                    None => None,
                }
            }
        },
        _ => None,
    }
}

pub(crate) fn fatan2(y: Option<i64>, x: Option<i64>) -> (r: Option<i64>)
    ensures
        r == s_atan2(y, x),
{
    match (y, x) {
        (Some(yv), Some(xv)) => {
            if yv == 0 && xv == 0 {
                Some(0i64)
            } else {
                let ay: i128 = if yv < 0 {
                    -(yv as i128)
                } else {
                    yv as i128
                };
                let ax: i128 = if xv < 0 {
                    -(xv as i128)
                } else {
                    xv as i128
                };
                if ay <= ax {
                    match fatan(fdiv(y, x)) {
                        Some(r) => {
                            if xv > 0 {
                                Some(r)
                            } else if yv >= 0 {
                                fadd(Some(r), Some(PI_Q60))
                            } else {
                                fsub(Some(r), Some(PI_Q60))
                            }
                        },
                        None => None,
                    }
                } else {
                    match fatan(fdiv(x, y)) {
                        Some(r) => {
                            if yv > 0 {
                                fsub(Some(FRAC_PI_2_Q60), Some(r))
                            } else {
                                fsub(Some(NEG_FRAC_PI_2_Q60), Some(r))
                            }
                        },
                        None => None,
                    }
                }
            }
        },
        _ => None,
    }
}

} // verus!
