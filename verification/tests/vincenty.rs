use slmlib::slm::Coordinates;
use slmlib::stats::geodetic_distance;
use slmlib::wsg84::vincenty_inverse;

fn coord(lat_nano: i64, lon_nano: i64) -> Coordinates {
    Coordinates::new(lat_nano, lon_nano).unwrap()
}

fn metres(r: Option<u64>) -> f64 {
    r.unwrap() as f64 / 1000.0
}

#[test]
fn vincenty_inverse_short() {
    let r = vincenty_inverse(
        coord(48_154_563_000, 17_072_561_000),
        coord(48_154_564_000, 17_072_562_000),
        100,
        1,
    );
    assert!((metres(r) - 0.13378944117648012).abs() <= 1.0e-2);
}

#[test]
fn vincenty_inverse_medium() {
    let r = vincenty_inverse(
        coord(48_154_563_000, 17_072_561_000),
        coord(48_158_800_000, 17_064_064_000),
        100,
        1,
    );
    assert!((metres(r) - 788.4148295236967).abs() <= 1.0e-2);
}

#[test]
fn vincenty_inverse_long() {
    let r = vincenty_inverse(
        coord(48_148_636_000, 17_107_558_000),
        coord(48_208_810_000, 16_372_477_000),
        100,
        1,
    );
    assert!((metres(r) - 55073.68246366003).abs() <= 1.0e-2);
}

#[test]
fn vincenty_inverse_equatorial() {
    let r = vincenty_inverse(coord(0, 0), coord(0, 100_000_000_000), 100, 1);
    assert!((metres(r) - 11131949.079).abs() <= 1.0e-2);
}

#[test]
fn vincenty_inverse_coincident() {
    let r = vincenty_inverse(coord(12_300_000_000, 4_560_000_000), coord(12_300_000_000, 4_560_000_000), 100, 1);
    assert!((metres(r) - 0.0).abs() <= 1.0e-2);
}

#[test]
fn geo_vincenty_inverse_antipodal() {
    let r = vincenty_inverse(coord(4_000_000_000, 2_000_000_000), coord(-4_000_000_000, -178_000_000_000), 100, 1);
    assert_eq!(r, None);
}

#[test]
fn wsg84_vincenty_inverse_antipodal() {
    let r = vincenty_inverse(coord(4_000_000_000, 2_000_000_000), coord(-4_000_000_000, -178_000_000_000), 100, 1);
    assert_eq!(r, None);
}

#[test]
fn distance_identity_is_zero() {
    let p = coord(-33_856_800_000, 151_215_300_000);
    assert_eq!(geodetic_distance(p, p), Some(0));
}

#[test]
fn distance_is_symmetric() {
    let a = coord(48_148_636_000, 17_107_558_000);
    let b = coord(48_208_810_000, 16_372_477_000);
    let ab = geodetic_distance(a, b);
    let ba = geodetic_distance(b, a);
    assert!(ab.is_some());
    assert_eq!(ab, ba);
}

#[test]
fn distance_across_equator() {
    // A meridian arc of one degree centred on the equator.
    let a = coord(-500_000_000, 0);
    let b = coord(500_000_000, 0);
    let r = geodetic_distance(a, b);
    assert!((metres(r) - 110574.4).abs() <= 5.0);
}

#[test]
fn distance_near_pole() {
    let a = coord(90_000_000_000, 0);
    let b = coord(89_000_000_000, 0);
    let r = geodetic_distance(a, b);
    assert!((metres(r) - 111693.9).abs() <= 5.0);
}

#[test]
fn distance_across_the_antimeridian() {
    let a = coord(0, 179_500_000_000);
    let b = coord(0, -179_500_000_000);
    let r = geodetic_distance(a, b);
    assert!((metres(r) - 111319.49).abs() <= 5.0);
}

#[test]
fn no_iterations_means_no_convergence() {
    let a = coord(1_000_000_000, 1_000_000_000);
    let b = coord(2_000_000_000, 2_000_000_000);
    assert_eq!(vincenty_inverse(a, b, 0, 1000), None);
    assert_eq!(vincenty_inverse(a, b, -5, 1000), None);
    // Coincident positions short-circuit before the iteration.
    assert_eq!(vincenty_inverse(a, a, 0, 1000), Some(0));
}
