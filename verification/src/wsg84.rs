//! Geodesic distance on the WGS84 ellipsoid by Vincenty's inverse formula.
//!
//! The whole computation runs in Q3.60 fixed point: a value is an `i64`
//! holding its magnitude times 2^60, giving a range of ±8 and a resolution
//! below 1e-18 — ample for radians, the trigonometric intermediates and the
//! second-order ellipsoidal series. Only the four transcendental kernels
//! (sine, cosine, arctangent, square root) come from an outside crate; every
//! other operation is exact integer arithmetic, checked against the
//! specification mirror `vincenty_result` step by step. An operation that
//! would leave the representable range ends the computation with `None` —
//! to a caller that is the same answer as a failure to converge.

use vstd::prelude::*;

use crate::q60::ONE_Q60;
use crate::q60::PI_Q60;
use crate::q60::TWO_Q60;
use crate::q60::THREE_Q60;
use crate::q60::FOUR_Q60;
use crate::q60::s_abs;
use crate::q60::tdiv;
use crate::q60::s_mul;
use crate::q60::s_div;
use crate::q60::s_add;
use crate::q60::s_sub;
use crate::q60::s_divk;
use crate::q60::s_sqrt;
use crate::q60::s_atan2;
use crate::q60::sin_q60;
use crate::q60::cos_q60;
use crate::q60::fmul;
use crate::q60::fdiv;
use crate::q60::fadd;
use crate::q60::fsub;
use crate::q60::fdivk;
use crate::q60::fsin;
use crate::q60::fcos;
use crate::q60::fsqrt;
use crate::q60::fatan2;
use crate::q60::cordic_sin;
use crate::q60::cordic_cos;
use crate::linalg::Vector;
use crate::linalg::s_unit;
use crate::slm::Coordinates;

verus! {

/// The WGS84 flattening 1/298.257223563, rounded to Q3.60.
pub const F_Q60: i64 = 3_865_527_516_262_548;

/// One minus the flattening, rounded to Q3.60.
pub const OMF_Q60: i64 = 1_149_055_977_090_584_428;

/// The WGS84 second eccentricity squared (A^2 - B^2) / B^2, rounded to
/// Q3.60.
pub const EP2_Q60: i64 = 7_770_110_724_398_291;

/// The WGS84 semi-minor axis in millimetres, times 2^20.
pub const B_MM_Q20: i64 = 6_665_537_914_661_953;

/// 4096/16384 of the ellipsoidal series, in Q3.60.
pub const C_A1_Q60: i64 = 288_230_376_151_711_744;

/// 768/16384 of the ellipsoidal series, in Q3.60.
pub const C_A2_Q60: i64 = 54_043_195_528_445_952;

/// 320/16384 of the ellipsoidal series, in Q3.60.
pub const C_A3_Q60: i64 = 22_517_998_136_852_480;

/// 175/16384 of the ellipsoidal series, in Q3.60.
pub const C_A4_Q60: i64 = 12_314_530_231_091_200;

/// 256/1024 of the ellipsoidal series, in Q3.60.
pub const C_B1_Q60: i64 = 288_230_376_151_711_744;

/// 128/1024 of the ellipsoidal series, in Q3.60.
pub const C_B2_Q60: i64 = 144_115_188_075_855_872;

/// 74/1024 of the ellipsoidal series, in Q3.60.
pub const C_B3_Q60: i64 = 83_316_593_106_354_176;

/// 47/1024 of the ellipsoidal series, in Q3.60.
pub const C_B4_Q60: i64 = 52_917_295_621_603_328;

/// The machine epsilon of a 53-bit significand, 2^-52, in Q3.60: the
/// approximate-equality margin of the coincidence test.
pub const EPS_Q60: i64 = 256;

/// Nanodegrees in half a turn.
pub const HALF_TURN_NANODEG: i64 = 180_000_000_000;

/// Picoradians in a radian.
pub const PRAD_PER_RAD: i64 = 1_000_000_000_000;

/// Radians in Q3.60 of a nanodegree count, rounded half away from zero.
pub open spec fn s_rad(n: int) -> int {
    let num = n * PI_Q60;
    if num >= 0 {
        (num + 90_000_000_000) / 180_000_000_000
    } else {
        ((num * -1 + 90_000_000_000) / 180_000_000_000) * -1
    }
}

fn rad_of(nanodeg: i64) -> (r: i64)
    requires
        -HALF_TURN_NANODEG <= nanodeg <= HALF_TURN_NANODEG,
    ensures
        r == s_rad(nanodeg as int),
        -PI_Q60 <= r <= PI_Q60,
{
    proof {
        assert(-(HALF_TURN_NANODEG as int) * (PI_Q60 as int) <= (nanodeg as int) * (PI_Q60 as int)
            <= (HALF_TURN_NANODEG as int) * (PI_Q60 as int)) by (nonlinear_arith)
            requires
                -HALF_TURN_NANODEG <= nanodeg <= HALF_TURN_NANODEG,
        ;
    }
    let num: i128 = (nanodeg as i128) * (PI_Q60 as i128);
    if num >= 0 {
        let q: i128 = (num + 90_000_000_000) / 180_000_000_000;
        proof {
            vstd::arithmetic::div_mod::lemma_div_is_ordered(
                num + 90_000_000_000,
                HALF_TURN_NANODEG as int * PI_Q60 as int + 90_000_000_000,
                180_000_000_000,
            );
        }
        q as i64
    } else {
        let q: i128 = ((-num) + 90_000_000_000) / 180_000_000_000;
        proof {
            vstd::arithmetic::div_mod::lemma_div_is_ordered(
                (-num) + 90_000_000_000,
                HALF_TURN_NANODEG as int * PI_Q60 as int + 90_000_000_000,
                180_000_000_000,
            );
        }
        -(q as i64)
    }
}

/// Nanodegrees of a Q3.60 radian count, rounded half away from zero.
pub open spec fn s_deg(bits: int) -> int {
    let num = bits * HALF_TURN_NANODEG;
    if num >= 0 {
        (2 * num + PI_Q60) / (2 * PI_Q60)
    } else {
        ((2 * (num * -1) + PI_Q60) / (2 * PI_Q60)) * -1
    }
}

fn deg_of(bits: i64) -> (r: i64)
    ensures
        r == s_deg(bits as int),
{
    proof {
        assert((bits as int) * (HALF_TURN_NANODEG as int)
            <= 0x8000_0000_0000_0000int * 180_000_000_000 && (bits as int) * (HALF_TURN_NANODEG
            as int) >= -0x8000_0000_0000_0000int * 180_000_000_000) by (nonlinear_arith);
    }
    let num: i128 = (bits as i128) * (HALF_TURN_NANODEG as i128);
    if num >= 0 {
        let q: i128 = (2 * num + PI_Q60 as i128) / (2 * PI_Q60 as i128);
        proof {
            vstd::arithmetic::div_mod::lemma_div_is_ordered(
                2 * num + PI_Q60,
                2 * 0x8000_0000_0000_0000int * 180_000_000_000 + PI_Q60,
                2 * PI_Q60,
            );
        }
        q as i64
    } else {
        let q: i128 = (2 * (-num) + PI_Q60 as i128) / (2 * PI_Q60 as i128);
        proof {
            vstd::arithmetic::div_mod::lemma_div_is_ordered(
                2 * (-num) + PI_Q60,
                2 * 0x8000_0000_0000_0000int * 180_000_000_000 + PI_Q60,
                2 * PI_Q60,
            );
        }
        -(q as i64)
    }
}

/// A latitude clamped into its valid nanodegree range.
pub open spec fn s_clamp_lat(n: int) -> i64 {
    if n > 90_000_000_000 {
        90_000_000_000i64
    } else if n < -90_000_000_000 {
        -90_000_000_000i64
    } else {
        n as i64
    }
}

/// A longitude wrapped once across the antimeridian, then clamped into its
/// valid nanodegree range.
pub open spec fn s_clamp_lon(n: int) -> i64 {
    let w = if n <= -180_000_000_000 {
        n + 360_000_000_000
    } else {
        n
    };
    if w > 180_000_000_000 || w <= -180_000_000_000 {
        180_000_000_000i64
    } else {
        w as i64
    }
}

/// The cartesian position of a point on the ellipsoid's surface, scaled by
/// the semi-major axis: for latitude phi and longitude lambda the scaled
/// radius is rho = (1-f) / sqrt((1-f)^2 cos^2 phi + sin^2 phi), and the
/// vector is (cos lambda cos phi, sin lambda cos phi, sin phi) times rho.
pub open spec fn s_to_vector(p: Coordinates) -> Option<Vector> {
    let phi = s_rad(p.latitude as int) as i64;
    let lam = s_rad(p.longitude as int) as i64;
    let sin_phi = Some(sin_q60(phi));
    let cos_phi = Some(cos_q60(phi));
    let sin_lam = Some(sin_q60(lam));
    let cos_lam = Some(cos_q60(lam));
    let rho = s_div(
        Some(OMF_Q60),
        s_sqrt(
            s_add(
                s_mul(s_mul(Some(OMF_Q60), Some(OMF_Q60)), s_mul(cos_phi, cos_phi)),
                s_mul(sin_phi, sin_phi),
            ),
        ),
    );
    let x = s_mul(s_mul(cos_lam, cos_phi), rho);
    let y = s_mul(s_mul(sin_lam, cos_phi), rho);
    let z = s_mul(sin_phi, rho);
    match (x, y, z) {
        (Some(xv), Some(yv), Some(zv)) => Some(Vector { x: xv, y: yv, z: zv }),
        _ => None,
    }
}

/// The geographic position a cartesian direction points at: the vector is
/// normalized, the latitude read as atan2(z, sqrt(x^2 + y^2)) and the
/// longitude as atan2(y, x), both brought back to clamped nanodegrees.
pub open spec fn s_to_point(v: Option<Vector>) -> Option<Coordinates> {
    match s_unit(v) {
        Some(u) => {
            let h = s_sqrt(s_add(s_mul(Some(u.x), Some(u.x)), s_mul(Some(u.y), Some(u.y))));
            let lat_o = s_atan2(Some(u.z), h);
            let lon_o = s_atan2(Some(u.y), Some(u.x));
            match (lat_o, lon_o) {
                (Some(la), Some(lo)) => Some(
                    Coordinates {
                        latitude: s_clamp_lat(s_deg(la as int)),
                        longitude: s_clamp_lon(s_deg(lo as int)),
                    },
                ),
                _ => None,
            }
        },
        None => None,
    }
}

impl Coordinates {
    /// Convert to cartesian coordinates within the WGS84 model, scaled by
    /// the semi-major axis.
    pub fn as_wsg84_vector(&self) -> (r: Option<Vector>)
        requires
            self.valid(),
        ensures
            r == s_to_vector(*self),
    {
        let phi = rad_of(self.latitude);
        let lam = rad_of(self.longitude);
        let sin_phi = fsin(Some(phi));
        let cos_phi = fcos(Some(phi));
        let sin_lam = fsin(Some(lam));
        let cos_lam = fcos(Some(lam));
        let rho = fdiv(
            Some(OMF_Q60),
            fsqrt(
                fadd(
                    fmul(fmul(Some(OMF_Q60), Some(OMF_Q60)), fmul(cos_phi, cos_phi)),
                    fmul(sin_phi, sin_phi),
                ),
            ),
        );
        let x = fmul(fmul(cos_lam, cos_phi), rho);
        let y = fmul(fmul(sin_lam, cos_phi), rho);
        let z = fmul(sin_phi, rho);
        match (x, y, z) {
            (Some(xv), Some(yv), Some(zv)) => Some(Vector { x: xv, y: yv, z: zv }),
            _ => None,
        }
    }
}

impl Vector {
    /// Convert to geographical coordinates within the WGS84 model. The
    /// result is always a valid position: direction alone decides it.
    pub fn as_wsg84_point(&self) -> (r: Option<Coordinates>)
        ensures
            r == s_to_point(Some(*self)),
            r matches Some(c) ==> c.valid(),
    {
        match self.to_unit() {
            Some(u) => {
                let h = fsqrt(fadd(fmul(Some(u.x), Some(u.x)), fmul(Some(u.y), Some(u.y))));
                let lat_o = fatan2(Some(u.z), h);
                let lon_o = fatan2(Some(u.y), Some(u.x));
                match (lat_o, lon_o) {
                    (Some(la), Some(lo)) => {
                        let lat_n = deg_of(la);
                        let lon_n = deg_of(lo);
                        let latitude: i64 = if lat_n > 90_000_000_000 {
                            90_000_000_000
                        } else if lat_n < -90_000_000_000 {
                            -90_000_000_000
                        } else {
                            lat_n
                        };
                        let w: i64 = if lon_n <= -180_000_000_000 {
                            lon_n + 360_000_000_000
                        } else {
                            lon_n
                        };
                        let longitude: i64 = if w > 180_000_000_000 || w <= -180_000_000_000 {
                            180_000_000_000
                        } else {
                            w
                        };
                        Some(Coordinates { latitude, longitude })
                    },
                    _ => None,
                }
            },
            None => None,
        }
    }
}

/// The two positions agree to within the coincidence margin, in radians.
pub open spec fn quasi_equal(p1: Coordinates, p2: Coordinates) -> bool {
    &&& s_abs(s_rad(p1.latitude as int) - s_rad(p2.latitude as int)) < EPS_Q60
    &&& s_abs(s_rad(p1.longitude as int) - s_rad(p2.longitude as int)) < EPS_Q60
}

/// A convergence margin in picoradians, brought to Q3.60 and capped.
pub open spec fn s_acc(accuracy: u64) -> i64 {
    let a = tdiv(accuracy as int * ONE_Q60 as int, PRAD_PER_RAD as int);
    if a > i64::MAX {
        i64::MAX
    } else {
        a as i64
    }
}

/// The quantities Vincenty's iteration works from: the sines and cosines of
/// the two reduced latitudes, the longitude difference and the convergence
/// margin, all in Q3.60.
#[derive(Clone, Copy)]
pub struct VParams {
    pub sin_u1: i64,
    pub cos_u1: i64,
    pub sin_u2: i64,
    pub cos_u2: i64,
    pub big_l: i64,
    pub acc: i64,
}

/// The iteration's inputs, or `None` when a reduced latitude cannot be
/// computed.
pub open spec fn s_params(p1: Coordinates, p2: Coordinates, accuracy: u64) -> Option<VParams> {
    let rl1 = s_rad(p1.latitude as int) as i64;
    let rl2 = s_rad(p2.latitude as int) as i64;
    let big_l = (s_rad(p2.longitude as int) - s_rad(p1.longitude as int)) as i64;
    let u1_o = s_atan2(s_mul(Some(OMF_Q60), Some(sin_q60(rl1))), Some(cos_q60(rl1)));
    let u2_o = s_atan2(s_mul(Some(OMF_Q60), Some(sin_q60(rl2))), Some(cos_q60(rl2)));
    match (u1_o, u2_o) {
        (Some(u1), Some(u2)) => Some(
            VParams {
                sin_u1: sin_q60(u1),
                cos_u1: cos_q60(u1),
                sin_u2: sin_q60(u2),
                cos_u2: cos_q60(u2),
                big_l,
                acc: s_acc(accuracy),
            },
        ),
        _ => None,
    }
}

fn make_acc(accuracy: u64) -> (r: i64)
    ensures
        r == s_acc(accuracy),
{
    proof {
        assert(accuracy as int * ONE_Q60 as int <= u64::MAX as int * ONE_Q60 as int)
            by (nonlinear_arith);
        assert(accuracy as int * ONE_Q60 as int >= 0) by (nonlinear_arith);
    }
    let p: i128 = (accuracy as i128) * (ONE_Q60 as i128);
    let q: i128 = p / (PRAD_PER_RAD as i128);
    if q > i64::MAX as i128 {
        i64::MAX
    } else {
        q as i64
    }
}

fn make_params(p1: Coordinates, p2: Coordinates, accuracy: u64) -> (r: Option<VParams>)
    requires
        p1.valid(),
        p2.valid(),
    ensures
        r == s_params(p1, p2, accuracy),
{
    let rl1 = rad_of(p1.latitude);
    let rl2 = rad_of(p2.latitude);
    let big_l = rad_of(p2.longitude) - rad_of(p1.longitude);
    let u1_o = fatan2(fmul(Some(OMF_Q60), Some(cordic_sin(rl1))), Some(cordic_cos(rl1)));
    let u2_o = fatan2(fmul(Some(OMF_Q60), Some(cordic_sin(rl2))), Some(cordic_cos(rl2)));
    match (u1_o, u2_o) {
        (Some(u1), Some(u2)) => Some(
            VParams {
                sin_u1: cordic_sin(u1),
                cos_u1: cordic_cos(u1),
                sin_u2: cordic_sin(u2),
                cos_u2: cordic_cos(u2),
                big_l,
                acc: make_acc(accuracy),
            },
        ),
        _ => None,
    }
}

/// One iteration's outcome: a final answer, or the next trial longitude
/// difference on the auxiliary sphere.
pub enum VStep {
    Done(Option<u64>),
    Next(i64),
}

/// The distance, in millimetres, of a converged iteration: the second-order
/// ellipsoidal series evaluated at the iteration's final quantities.
pub open spec fn s_dist(sigma: i64, sin_sigma: i64, cos_sigma: i64, c2sm: i64, c2a: i64) -> Option<
    u64,
> {
    let u_sq = s_mul(Some(c2a), Some(EP2_Q60));
    let aa = s_add(
        Some(ONE_Q60),
        s_mul(
            u_sq,
            s_add(
                Some(C_A1_Q60),
                s_mul(
                    u_sq,
                    s_sub(s_mul(u_sq, s_sub(Some(C_A3_Q60), s_mul(Some(C_A4_Q60), u_sq))), Some(C_A2_Q60)),
                ),
            ),
        ),
    );
    let bb = s_mul(
        u_sq,
        s_add(
            Some(C_B1_Q60),
            s_mul(
                u_sq,
                s_sub(s_mul(u_sq, s_sub(Some(C_B3_Q60), s_mul(Some(C_B4_Q60), u_sq))), Some(C_B2_Q60)),
            ),
        ),
    );
    let m2 = s_sub(s_mul(Some(FOUR_Q60), s_mul(Some(sin_sigma), Some(sin_sigma))), Some(THREE_Q60));
    let m3 = s_sub(s_mul(Some(FOUR_Q60), s_mul(Some(c2sm), Some(c2sm))), Some(THREE_Q60));
    let tb6 = s_mul(s_mul(s_divk(bb, 6), Some(c2sm)), m2);
    let tbm = s_mul(tb6, m3);
    let twist = s_sub(s_mul(Some(TWO_Q60), s_mul(Some(c2sm), Some(c2sm))), Some(ONE_Q60));
    let inner = s_sub(s_mul(Some(cos_sigma), twist), tbm);
    let delta = s_mul(s_mul(bb, Some(sin_sigma)), s_add(Some(c2sm), s_mul(s_divk(bb, 4), inner)));
    let t = s_mul(aa, s_sub(Some(sigma), delta));
    match t {
        Some(tv) => {
            let smm = tdiv(tv as int * B_MM_Q20 as int, 0x100000000000000000000);
            if smm < 0 {
                Some(0u64)
            } else {
                Some(smm as u64)
            }
        },
        None => None,
    }
}

fn dist(sigma: i64, sin_sigma: i64, cos_sigma: i64, c2sm: i64, c2a: i64) -> (r: Option<u64>)
    ensures
        r == s_dist(sigma, sin_sigma, cos_sigma, c2sm, c2a),
{
    let u_sq = fmul(Some(c2a), Some(EP2_Q60));
    let aa = fadd(
        Some(ONE_Q60),
        fmul(
            u_sq,
            fadd(
                Some(C_A1_Q60),
                fmul(
                    u_sq,
                    fsub(fmul(u_sq, fsub(Some(C_A3_Q60), fmul(Some(C_A4_Q60), u_sq))), Some(C_A2_Q60)),
                ),
            ),
        ),
    );
    let bb = fmul(
        u_sq,
        fadd(
            Some(C_B1_Q60),
            fmul(
                u_sq,
                fsub(fmul(u_sq, fsub(Some(C_B3_Q60), fmul(Some(C_B4_Q60), u_sq))), Some(C_B2_Q60)),
            ),
        ),
    );
    let m2 = fsub(fmul(Some(FOUR_Q60), fmul(Some(sin_sigma), Some(sin_sigma))), Some(THREE_Q60));
    let m3 = fsub(fmul(Some(FOUR_Q60), fmul(Some(c2sm), Some(c2sm))), Some(THREE_Q60));
    let tb6 = fmul(fmul(fdivk(bb, 6), Some(c2sm)), m2);
    let tbm = fmul(tb6, m3);
    let twist = fsub(fmul(Some(TWO_Q60), fmul(Some(c2sm), Some(c2sm))), Some(ONE_Q60));
    let inner = fsub(fmul(Some(cos_sigma), twist), tbm);
    let delta = fmul(fmul(bb, Some(sin_sigma)), fadd(Some(c2sm), fmul(fdivk(bb, 4), inner)));
    let t = fmul(aa, fsub(Some(sigma), delta));
    match t {
        Some(tv) => {
            proof {
                assert(tv as int * B_MM_Q20 as int <= 0x4000_0000_0000_0000_0000_0000_0000_0000int
                    && tv as int * B_MM_Q20 as int >= -0x4000_0000_0000_0000_0000_0000_0000_0000int)
                    by (nonlinear_arith);
            }
            let p: i128 = (tv as i128) * (B_MM_Q20 as i128);
            let q: i128 = p / 0x100000000000000000000i128;
            if q < 0 {
                Some(0u64)
            } else {
                proof {
                    vstd::arithmetic::div_mod::lemma_div_is_ordered(
                        p as int,
                        0x4000_0000_0000_0000_0000_0000_0000_0000int,
                        0x100000000000000000000int,
                    );
                }
                Some(q as u64)
            }
        },
        None => None,
    }
}

/// One turn of Vincenty's fixed-point iteration at the trial value
/// `lambda`: fail, finish with a distance, or continue with the next trial.
pub open spec fn s_step(pr: VParams, lambda: i64) -> VStep {
    let sin_l = Some(sin_q60(lambda));
    let cos_l = Some(cos_q60(lambda));
    let t1 = s_mul(Some(pr.cos_u2), sin_l);
    let t2 = s_sub(
        s_mul(Some(pr.cos_u1), Some(pr.sin_u2)),
        s_mul(s_mul(Some(pr.sin_u1), Some(pr.cos_u2)), cos_l),
    );
    match s_sqrt(s_add(s_mul(t1, t1), s_mul(t2, t2))) {
        None => VStep::Done(None),
        Some(ss) => if ss == 0 {
            VStep::Done(None)
        } else {
            let cos_sigma_o = s_add(
                s_mul(Some(pr.sin_u1), Some(pr.sin_u2)),
                s_mul(s_mul(Some(pr.cos_u1), Some(pr.cos_u2)), cos_l),
            );
            let sigma_o = s_atan2(Some(ss), cos_sigma_o);
            let sin_alpha_o = s_div(
                s_mul(s_mul(Some(pr.cos_u1), Some(pr.cos_u2)), sin_l),
                Some(ss),
            );
            match s_sub(Some(ONE_Q60), s_mul(sin_alpha_o, sin_alpha_o)) {
                None => VStep::Done(None),
                Some(c2a) => {
                    let c2sm_o = if c2a == 0 {
                        Some(0i64)
                    } else {
                        s_sub(
                            cos_sigma_o,
                            s_div(
                                s_mul(s_mul(Some(TWO_Q60), Some(pr.sin_u1)), Some(pr.sin_u2)),
                                Some(c2a),
                            ),
                        )
                    };
                    let c_o = s_mul(
                        s_divk(Some(F_Q60), 16),
                        s_mul(
                            Some(c2a),
                            s_add(
                                Some(FOUR_Q60),
                                s_mul(Some(F_Q60), s_sub(Some(FOUR_Q60), s_mul(Some(THREE_Q60), Some(c2a)))),
                            ),
                        ),
                    );
                    let twist = s_sub(s_mul(Some(TWO_Q60), s_mul(c2sm_o, c2sm_o)), Some(ONE_Q60));
                    let inner_o = s_add(c2sm_o, s_mul(s_mul(c_o, cos_sigma_o), twist));
                    let lam_o = s_add(
                        Some(pr.big_l),
                        s_mul(
                            s_mul(s_sub(Some(ONE_Q60), c_o), Some(F_Q60)),
                            s_mul(sin_alpha_o, s_add(sigma_o, s_mul(s_mul(c_o, Some(ss)), inner_o))),
                        ),
                    );
                    match (lam_o, sigma_o, cos_sigma_o, c2sm_o) {
                        (Some(ln), Some(sg), Some(cs), Some(cm)) => if s_abs(ln - lambda)
                            <= pr.acc {
                            VStep::Done(s_dist(sg, ss, cs, cm, c2a))
                        } else {
                            VStep::Next(ln)
                        },
                        _ => VStep::Done(None),
                    }
                },
            }
        },
    }
}

fn step(pr: &VParams, lambda: i64) -> (r: VStep)
    ensures
        r == s_step(*pr, lambda),
{
    let sin_l = Some(cordic_sin(lambda));
    let cos_l = Some(cordic_cos(lambda));
    let t1 = fmul(Some(pr.cos_u2), sin_l);
    let t2 = fsub(
        fmul(Some(pr.cos_u1), Some(pr.sin_u2)),
        fmul(fmul(Some(pr.sin_u1), Some(pr.cos_u2)), cos_l),
    );
    match fsqrt(fadd(fmul(t1, t1), fmul(t2, t2))) {
        None => VStep::Done(None),
        Some(ss) => {
            if ss == 0 {
                VStep::Done(None)
            } else {
                let cos_sigma_o = fadd(
                    fmul(Some(pr.sin_u1), Some(pr.sin_u2)),
                    fmul(fmul(Some(pr.cos_u1), Some(pr.cos_u2)), cos_l),
                );
                let sigma_o = fatan2(Some(ss), cos_sigma_o);
                let sin_alpha_o = fdiv(
                    fmul(fmul(Some(pr.cos_u1), Some(pr.cos_u2)), sin_l),
                    Some(ss),
                );
                match fsub(Some(ONE_Q60), fmul(sin_alpha_o, sin_alpha_o)) {
                    None => VStep::Done(None),
                    Some(c2a) => {
                        let c2sm_o = if c2a == 0 {
                            Some(0i64)
                        } else {
                            fsub(
                                cos_sigma_o,
                                fdiv(
                                    fmul(fmul(Some(TWO_Q60), Some(pr.sin_u1)), Some(pr.sin_u2)),
                                    Some(c2a),
                                ),
                            )
                        };
                        let c_o = fmul(
                            fdivk(Some(F_Q60), 16),
                            fmul(
                                Some(c2a),
                                fadd(
                                    Some(FOUR_Q60),
                                    fmul(Some(F_Q60), fsub(Some(FOUR_Q60), fmul(Some(THREE_Q60), Some(c2a)))),
                                ),
                            ),
                        );
                        let twist = fsub(fmul(Some(TWO_Q60), fmul(c2sm_o, c2sm_o)), Some(ONE_Q60));
                        let inner_o = fadd(c2sm_o, fmul(fmul(c_o, cos_sigma_o), twist));
                        let lam_o = fadd(
                            Some(pr.big_l),
                            fmul(
                                fmul(fsub(Some(ONE_Q60), c_o), Some(F_Q60)),
                                fmul(sin_alpha_o, fadd(sigma_o, fmul(fmul(c_o, Some(ss)), inner_o))),
                            ),
                        );
                        match (lam_o, sigma_o, cos_sigma_o, c2sm_o) {
                            (Some(ln), Some(sg), Some(cs), Some(cm)) => {
                                let d: i128 = (ln as i128) - (lambda as i128);
                                let ad: i128 = if d < 0 {
                                    -d
                                } else {
                                    d
                                };
                                if ad <= pr.acc as i128 {
                                    VStep::Done(dist(sg, ss, cs, cm, c2a))
                                } else {
                                    VStep::Next(ln)
                                }
                            },
                            _ => VStep::Done(None),
                        }
                    },
                }
            }
        },
    }
}

/// The iteration's final answer from a trial value and the turns it may
/// still take.
pub open spec fn s_iter(pr: VParams, lambda: i64, fuel: nat) -> Option<u64>
    decreases fuel,
{
    if fuel == 0 {
        None
    } else {
        match s_step(pr, lambda) {
            VStep::Done(r) => r,
            VStep::Next(l2) => s_iter(pr, l2, (fuel - 1) as nat),
        }
    }
}

/// The turns the iteration is allowed.
pub open spec fn fuel_of(max_iteration: i32) -> nat {
    if max_iteration <= 0 {
        0nat
    } else {
        max_iteration as nat
    }
}

/// What the solver computes for an ordered pair: zero for coincident
/// positions, otherwise the iteration's outcome from the raw longitude
/// difference — the distance it converged to, or `None` when it ran out of
/// turns, met the antipodal degeneracy, or left the representable range.
pub open spec fn vincenty_ordered(
    p1: Coordinates,
    p2: Coordinates,
    max_iteration: i32,
    accuracy: u64,
) -> Option<u64> {
    if quasi_equal(p1, p2) {
        Some(0u64)
    } else {
        match s_params(p1, p2, accuracy) {
            Some(pr) => s_iter(pr, pr.big_l, fuel_of(max_iteration)),
            None => None,
        }
    }
}

/// The first position comes first: positions are ordered by latitude, then
/// longitude.
pub open spec fn s_ordered(p1: Coordinates, p2: Coordinates) -> bool {
    ||| p1.latitude < p2.latitude
    ||| p1.latitude == p2.latitude && p1.longitude <= p2.longitude
}

/// What the solver returns: the ordered pair's result, whichever way the
/// two positions came — so the distance is symmetric by construction.
pub open spec fn vincenty_result(
    p1: Coordinates,
    p2: Coordinates,
    max_iteration: i32,
    accuracy: u64,
) -> Option<u64> {
    if s_ordered(p1, p2) {
        vincenty_ordered(p1, p2, max_iteration, accuracy)
    } else {
        vincenty_ordered(p2, p1, max_iteration, accuracy)
    }
}

/// The geodesic distance does not depend on the order of its two ends.
pub proof fn lemma_distance_symmetric(
    p1: Coordinates,
    p2: Coordinates,
    max_iteration: i32,
    accuracy: u64,
)
    ensures
        vincenty_result(p1, p2, max_iteration, accuracy) == vincenty_result(
            p2,
            p1,
            max_iteration,
            accuracy,
        ),
{
}

/// Compute the geodesic distance between two points in millimetres, using
/// Vincenty's inverse formula in Q3.60 fixed point.
///
/// The two positions are brought into a fixed order first, so the distance
/// is symmetric in its ends. Positions that agree to within 2^-52 radians
/// count as coincident and give `Some(0)` at once. `accuracy` is the
/// convergence margin for the auxiliary longitude difference, in
/// picoradians; `max_iteration` bounds the turns the fixed-point iteration
/// may take, and `None` reports a failure to converge — in particular the
/// antipodal degeneracy.
#[verifier::loop_isolation(false)]
pub fn vincenty_inverse(p1: Coordinates, p2: Coordinates, max_iteration: i32, accuracy: u64) -> (r:
    Option<u64>)
    requires
        p1.valid(),
        p2.valid(),
    ensures
        r == vincenty_result(p1, p2, max_iteration, accuracy),
        p1 == p2 ==> r == Some(0u64),
{
    let swap: bool = !(p1.latitude < p2.latitude || (p1.latitude == p2.latitude && p1.longitude
        <= p2.longitude));
    let (p1, p2) = if swap {
        (p2, p1)
    } else {
        (p1, p2)
    };
    let rlat1 = rad_of(p1.latitude);
    let rlat2 = rad_of(p2.latitude);
    let rlon1 = rad_of(p1.longitude);
    let rlon2 = rad_of(p2.longitude);
    let dlat: i64 = if rlat1 >= rlat2 {
        rlat1 - rlat2
    } else {
        rlat2 - rlat1
    };
    let dlon: i64 = if rlon1 >= rlon2 {
        rlon1 - rlon2
    } else {
        rlon2 - rlon1
    };
    if dlat < EPS_Q60 && dlon < EPS_Q60 {
        return Some(0u64);
    }
    let pr = match make_params(p1, p2, accuracy) {
        Some(pr) => pr,
        None => {
            return None;
        },
    };
    let mut lambda: i64 = pr.big_l;
    let mut k: i32 = 0;
    while k < max_iteration
        invariant
            0 <= k,
            k <= fuel_of(max_iteration),
            s_iter(
                pr,
                lambda,
                (fuel_of(max_iteration) - k) as nat,
            ) == s_iter(pr, pr.big_l, fuel_of(max_iteration)),
        decreases max_iteration - k,
    {
        match step(&pr, lambda) {
            VStep::Done(res) => {
                proof {
                    assert(s_iter(pr, lambda, (fuel_of(max_iteration) - k) as nat) == res);
                }
                return res;
            },
            VStep::Next(l2) => {
                proof {
                    assert(s_iter(pr, lambda, (fuel_of(max_iteration) - k) as nat) == s_iter(
                        pr,
                        l2,
                        (fuel_of(max_iteration) - (k + 1)) as nat,
                    ));
                }
                lambda = l2;
                k = k + 1;
            },
        }
    }
    proof {
        assert(s_iter(pr, lambda, (fuel_of(max_iteration) - k) as nat) == None::<u64>);
    }
    None
}

} // verus!
