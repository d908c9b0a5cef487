use slmlib::analyze;
use slmlib::slm::Coordinates;
use slmlib::slm::Deviation;
use slmlib::slm::Error;
use slmlib::slm::Progress;
use slmlib::stats::compute_stats;

fn coord(lat_nano: i64, lon_nano: i64) -> Coordinates {
    Coordinates::new(lat_nano, lon_nano).unwrap()
}

#[test]
fn coordinates_validate_their_ranges() {
    assert!(Coordinates::new(90_000_000_000, 180_000_000_000).is_ok());
    assert!(Coordinates::new(-90_000_000_000, -179_999_999_999).is_ok());
    assert_eq!(
        Coordinates::new(90_000_000_001, 0),
        Err(Error::InvalidCoordinate)
    );
    assert_eq!(
        Coordinates::new(0, -180_000_000_000),
        Err(Error::InvalidCoordinate)
    );
    assert_eq!(
        Coordinates::new(0, 180_000_000_001),
        Err(Error::InvalidCoordinate)
    );
}

#[test]
fn analyze_classifies_every_point() {
    let start = coord(45_000_000_000, 7_000_000_000);
    let end = coord(46_000_000_000, 7_000_000_000);
    let track = vec![
        coord(44_500_000_000, 7_000_000_000),
        coord(45_500_000_000, 7_500_000_000),
        coord(46_500_000_000, 7_000_000_000),
    ];
    let slm = analyze(start, end, &track).unwrap();
    assert_eq!(slm.route_start, start);
    assert_eq!(slm.route_end, end);
    assert!((slm.route_length as i64 - 111_141_548).abs() < 1_000);
    assert_eq!(slm.track.len(), 3);
    assert!(matches!(slm.track[0].progress, Progress::Standby));
    assert!(matches!(slm.track[2].progress, Progress::Arrived));
    match &slm.track[1].progress {
        Progress::EnRoute { on_route, made_good, deviation } => {
            assert_eq!(on_route.longitude, 7_000_000_000);
            assert!((on_route.latitude - 45_501_090_678i64).abs() < 2_000);
            assert!((*made_good as i64 - 55_689_551).abs() < 2_000);
            match deviation {
                Some(Deviation::Right(d)) => {
                    assert!((*d as i64 - 39_078_779).abs() < 2_000);
                },
                other => panic!("wrong deviation {:?}", other),
            }
        },
        other => panic!("expected an en-route point, got {:?}", other),
    }
    assert!((slm.max_deviation as i64 - 39_078_779).abs() < 2_000);
}

#[test]
fn analyze_keeps_the_worst_deviation() {
    let start = coord(45_000_000_000, 7_000_000_000);
    let end = coord(46_000_000_000, 7_000_000_000);
    let track = vec![
        coord(45_200_000_000, 7_010_000_000),
        coord(45_500_000_000, 7_500_000_000),
        coord(45_800_000_000, 6_990_000_000),
    ];
    let slm = analyze(start, end, &track).unwrap();
    let mut worst: u64 = 0;
    for p in slm.track.iter() {
        if let Progress::EnRoute { deviation: Some(d), .. } = &p.progress {
            let v = match d {
                Deviation::Left(v) => *v,
                Deviation::Right(v) => *v,
            };
            if v > worst {
                worst = v;
            }
        }
    }
    assert_eq!(slm.max_deviation, worst);
    assert!(worst > 0);
}

#[test]
fn analyze_rejects_a_degenerate_route() {
    let p = coord(4_000_000_000, 2_000_000_000);
    let q = coord(-4_000_000_000, -178_000_000_000);
    assert_eq!(analyze(p, p, &vec![]).unwrap_err(), Error::DegenerateRoute);
    assert_eq!(analyze(p, q, &vec![]).unwrap_err(), Error::DegenerateRoute);
}

#[test]
fn stats_follow_the_span_rules() {
    let start = coord(45_000_000_000, 7_000_000_000);
    let end = coord(46_000_000_000, 7_000_000_000);
    let track = vec![
        coord(44_500_000_000, 7_000_000_000),
        coord(45_500_000_000, 7_500_000_000),
        coord(46_500_000_000, 7_000_000_000),
    ];
    let stats = compute_stats((start, end), &track).unwrap();
    assert_eq!(stats.points.len(), 3);
    assert_eq!(stats.points[0].deviation, 0);
    assert_eq!(stats.points[0].made_good, 0);
    assert_eq!(stats.points[2].deviation, 0);
    assert_eq!(stats.points[2].made_good, stats.route_length);
    assert!((stats.points[1].deviation as i64 - 39_078_779).abs() < 2_000);
    assert!((stats.points[1].made_good as i64 - 55_689_551).abs() < 2_000);
    assert_eq!(stats.max_deviation, stats.points[1].deviation);
}

#[test]
fn stats_clamp_made_good_to_the_route() {
    let start = coord(45_000_000_000, 7_000_000_000);
    let end = coord(46_000_000_000, 7_000_000_000);
    let track = vec![coord(45_999_999_000, 7_000_001_000)];
    let stats = compute_stats((start, end), &track).unwrap();
    assert!(stats.points[0].made_good <= stats.route_length);
}

#[test]
fn stats_reject_a_degenerate_route() {
    let p = coord(4_000_000_000, 2_000_000_000);
    assert_eq!(
        compute_stats((p, p), &vec![]).unwrap_err(),
        Error::DegenerateRoute
    );
}
