use slmlib::geo::Geodesic;
use slmlib::geo::Sequence;
use slmlib::geo::Side;
use slmlib::slm::Coordinates;

fn coord(lat_nano: i64, lon_nano: i64) -> Coordinates {
    Coordinates::new(lat_nano, lon_nano).unwrap()
}

fn roundtrip(lat_nano: i64, lon_nano: i64) {
    let p = coord(lat_nano, lon_nano);
    let v = p.as_wsg84_vector().unwrap();
    let q = v.as_wsg84_point().unwrap();
    assert_eq!(p, q);
}

#[test]
fn point_conversion_ne() {
    roundtrip(78_290_000_000, 21_830_000_000);
}

#[test]
fn point_conversion_nee() {
    roundtrip(56_150_000_000, 145_180_000_000);
}

#[test]
fn point_conversion_nw() {
    roundtrip(47_210_000_000, -6_220_000_000);
}

#[test]
fn point_conversion_nww() {
    roundtrip(82_730_000_000, -129_340_000_000);
}

#[test]
fn point_conversion_se() {
    roundtrip(-60_350_000_000, 13_530_000_000);
}

#[test]
fn point_conversion_sw() {
    roundtrip(-79_830_000_000, -83_250_000_000);
}

#[test]
fn point_conversion_see() {
    roundtrip(-37_620_000_000, 171_820_000_000);
}

#[test]
fn point_conversion_sww() {
    roundtrip(-45_840_000_000, -179_220_000_000);
}

#[test]
fn point_conversion_origin_and_pole() {
    roundtrip(0, 0);
    roundtrip(90_000_000_000, 0);
}

fn meridian_route() -> Geodesic {
    Geodesic::new(coord(45_000_000_000, 7_000_000_000), coord(46_000_000_000, 7_000_000_000))
        .unwrap()
}

fn parallel_route() -> Geodesic {
    Geodesic::new(coord(45_000_000_000, 7_000_000_000), coord(45_000_000_000, 8_000_000_000))
        .unwrap()
}

#[test]
fn meridian_projection_before() {
    let (_, sequence, _) = coord(44_500_000_000, 7_000_000_000).project_onto(meridian_route()).unwrap();
    assert_eq!(sequence, Sequence::BeforeStart);
}

#[test]
fn meridian_projection_between() {
    let (_, sequence, _) = coord(45_500_000_000, 7_000_000_000).project_onto(meridian_route()).unwrap();
    assert_eq!(sequence, Sequence::InBetween);
}

#[test]
fn meridian_projection_after() {
    let (_, sequence, _) = coord(46_500_000_000, 7_000_000_000).project_onto(meridian_route()).unwrap();
    assert_eq!(sequence, Sequence::AfterEnd);
}

#[test]
fn meridian_projection_left() {
    let (_, _, side) = coord(45_500_000_000, 6_500_000_000).project_onto(meridian_route()).unwrap();
    assert_eq!(side, Side::Left);
}

#[test]
fn meridian_projection_right() {
    let (_, _, side) = coord(45_500_000_000, 7_500_000_000).project_onto(meridian_route()).unwrap();
    assert_eq!(side, Side::Right);
}

#[test]
fn meridian_projection_lands_on_route() {
    let (on_route, _, _) = coord(45_500_000_000, 7_500_000_000).project_onto(meridian_route()).unwrap();
    // The projection keeps to the route's meridian, a little north of the
    // point's own latitude.
    assert_eq!(on_route.longitude, 7_000_000_000);
    assert!((on_route.latitude - 45_501_090_678i64).abs() < 2_000);
}

#[test]
fn parallel_projection_left() {
    let (_, _, side) = coord(45_500_000_000, 7_500_000_000).project_onto(parallel_route()).unwrap();
    assert_eq!(side, Side::Left);
}

#[test]
fn parallel_projection_right() {
    let (_, _, side) = coord(44_500_000_000, 7_500_000_000).project_onto(parallel_route()).unwrap();
    assert_eq!(side, Side::Right);
}

#[test]
fn parallel_projection_before() {
    let (_, sequence, _) = coord(45_000_000_000, 6_500_000_000).project_onto(parallel_route()).unwrap();
    assert_eq!(sequence, Sequence::BeforeStart);
}

#[test]
fn parallel_projection_between() {
    let (_, sequence, _) = coord(45_000_000_000, 7_500_000_000).project_onto(parallel_route()).unwrap();
    assert_eq!(sequence, Sequence::InBetween);
}

#[test]
fn parallel_projection_after() {
    let (_, sequence, _) = coord(45_000_000_000, 8_500_000_000).project_onto(parallel_route()).unwrap();
    assert_eq!(sequence, Sequence::AfterEnd);
}

#[test]
fn degenerate_route_has_no_geodesic() {
    let p = coord(4_000_000_000, 2_000_000_000);
    assert!(Geodesic::new(p, p).is_none());
}

#[test]
fn point_conversion_antimeridian() {
    roundtrip(0, 180_000_000_000);
    roundtrip(12_500_000_000, -1);
}
