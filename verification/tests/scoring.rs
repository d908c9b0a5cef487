use slmlib::burdell::BurdellLevel;
use slmlib::burdell::BurdellSettings;
use slmlib::burdell::deviation_profile;
use slmlib::geowizard::Rank;
use slmlib::geowizard::compute_rank;
use slmlib::slm::Coordinates;
use slmlib::slm::Deviation;
use slmlib::slm::Point;
use slmlib::slm::Progress;
use slmlib::slm::Slm;

fn coord(lat_nano: i64, lon_nano: i64) -> Coordinates {
    Coordinates::new(lat_nano, lon_nano).unwrap()
}

fn mission(route_length: u64, track: Vec<Point>) -> Slm {
    let mut max_deviation: u64 = 0;
    for p in track.iter() {
        if let Progress::EnRoute { deviation: Some(d), .. } = &p.progress {
            let v = match d {
                Deviation::Left(v) => *v,
                Deviation::Right(v) => *v,
            };
            if v > max_deviation {
                max_deviation = v;
            }
        }
    }
    Slm {
        route_start: coord(45_000_000_000, 7_000_000_000),
        route_end: coord(46_000_000_000, 7_000_000_000),
        route_length,
        track,
        max_deviation,
    }
}

fn en_route(made_good: u64, deviation: Option<Deviation>) -> Point {
    Point {
        coordinates: coord(45_500_000_000, 7_000_000_000),
        progress: Progress::EnRoute {
            on_route: coord(45_500_000_000, 7_000_000_000),
            made_good,
            deviation,
        },
    }
}

#[test]
fn rank_platinum_below_25_metres() {
    let slm = mission(1_000_000, vec![]);
    let slm = Slm { max_deviation: 24_999, ..slm };
    assert_eq!(compute_rank(&slm), Some(Rank::Platinum));
}

#[test]
fn rank_gold_at_25_metres() {
    let slm = mission(1_000_000, vec![]);
    let slm = Slm { max_deviation: 25_000, ..slm };
    assert_eq!(compute_rank(&slm), Some(Rank::Gold));
}

#[test]
fn rank_silver_at_50_metres() {
    let slm = mission(1_000_000, vec![]);
    let slm = Slm { max_deviation: 50_000, ..slm };
    assert_eq!(compute_rank(&slm), Some(Rank::Silver));
}

#[test]
fn rank_bronze_below_100_metres() {
    let slm = mission(1_000_000, vec![]);
    let slm = Slm { max_deviation: 99_999, ..slm };
    assert_eq!(compute_rank(&slm), Some(Rank::Bronze));
}

#[test]
fn rank_none_at_100_metres() {
    let slm = mission(1_000_000, vec![]);
    let slm = Slm { max_deviation: 100_000, ..slm };
    assert_eq!(compute_rank(&slm), None);
}

#[test]
fn rank_names() {
    assert_eq!(Rank::Platinum.to_str(), "PLATINUM");
    assert_eq!(Rank::Gold.to_str(), "GOLD");
    assert_eq!(Rank::Silver.to_str(), "SILVER");
    assert_eq!(Rank::Bronze.to_str(), "BRONZE");
}

#[test]
fn levels_hardest_first() {
    assert_eq!(
        BurdellLevel::each(),
        vec![BurdellLevel::Pro, BurdellLevel::Amateur, BurdellLevel::Newbie]
    );
}

#[test]
fn level_settings() {
    assert_eq!(BurdellLevel::Pro.settings(), BurdellSettings { step: 1, coefficient: 150 });
    assert_eq!(BurdellLevel::Amateur.settings(), BurdellSettings { step: 5, coefficient: 175 });
    assert_eq!(BurdellLevel::Newbie.settings(), BurdellSettings { step: 25, coefficient: 200 });
}

#[test]
fn profile_of_empty_track_is_flat() {
    let slm = mission(10_000, vec![]);
    let profile = deviation_profile(&BurdellSettings::pro(), &slm);
    assert_eq!(profile, vec![0; 11]);
}

#[test]
fn profile_averages_across_gaps() {
    // One point half way down a ten-metre route: its segment keeps the
    // worst deviation, the anchored ends stay at zero, and every unvisited
    // segment takes the average of its nearest charted neighbours.
    let slm = mission(10_000, vec![en_route(5_000, Some(Deviation::Left(7)))]);
    let profile = deviation_profile(&BurdellSettings::pro(), &slm);
    assert_eq!(profile, vec![0, 3, 3, 3, 3, 7, 3, 3, 3, 3, 0]);
}

#[test]
fn profile_keeps_worst_deviation_per_segment() {
    let slm = mission(
        10_000,
        vec![
            en_route(5_000, Some(Deviation::Left(7))),
            en_route(5_200, Some(Deviation::Right(11))),
            en_route(5_900, Some(Deviation::Left(2))),
        ],
    );
    let profile = deviation_profile(&BurdellSettings::pro(), &slm);
    assert_eq!(profile, vec![0, 5, 5, 5, 5, 11, 5, 5, 5, 5, 0]);
}

#[test]
fn profile_point_in_first_segment_raises_the_anchor() {
    let slm = mission(10_000, vec![en_route(500, Some(Deviation::Right(9)))]);
    let profile = deviation_profile(&BurdellSettings::pro(), &slm);
    assert_eq!(profile, vec![9, 4, 4, 4, 4, 4, 4, 4, 4, 4, 0]);
}

#[test]
fn profile_ignores_points_outside_the_span() {
    let standby = Point {
        coordinates: coord(44_000_000_000, 7_000_000_000),
        progress: Progress::Standby,
    };
    let arrived = Point {
        coordinates: coord(47_000_000_000, 7_000_000_000),
        progress: Progress::Arrived,
    };
    let slm = mission(10_000, vec![standby, arrived]);
    let profile = deviation_profile(&BurdellSettings::pro(), &slm);
    assert_eq!(profile, vec![0; 11]);
}

#[test]
fn profile_centre_point_counts_as_zero_deviation() {
    let slm = mission(10_000, vec![en_route(5_000, None)]);
    let profile = deviation_profile(&BurdellSettings::pro(), &slm);
    assert_eq!(profile, vec![0; 11]);
}

#[test]
fn profile_never_drops_when_a_deviation_grows() {
    let small = mission(20_000, vec![
        en_route(4_000, Some(Deviation::Left(5))),
        en_route(15_000, Some(Deviation::Right(8))),
    ]);
    let large = mission(20_000, vec![
        en_route(4_000, Some(Deviation::Left(5))),
        en_route(15_000, Some(Deviation::Right(13))),
    ]);
    let p_small = deviation_profile(&BurdellSettings::pro(), &small);
    let p_large = deviation_profile(&BurdellSettings::pro(), &large);
    assert_eq!(p_small.len(), p_large.len());
    for (a, b) in p_small.iter().zip(p_large.iter()) {
        assert!(a <= b);
    }
}

#[test]
fn profile_respects_the_step_width() {
    // The same mission charted at the "Newbie" step of 25 metres: a
    // 100-metre route has five segments.
    let slm = mission(100_000, vec![en_route(30_000, Some(Deviation::Left(6)))]);
    let profile = deviation_profile(&BurdellSettings::newbie(), &slm);
    assert_eq!(profile, vec![0, 6, 3, 3, 0]);
}

#[test]
fn rank_from_deviation_boundaries() {
    assert_eq!(Rank::from_deviation(0), Some(Rank::Platinum));
    assert_eq!(Rank::from_deviation(24_999), Some(Rank::Platinum));
    assert_eq!(Rank::from_deviation(25_000), Some(Rank::Gold));
    assert_eq!(Rank::from_deviation(49_999), Some(Rank::Gold));
    assert_eq!(Rank::from_deviation(50_000), Some(Rank::Silver));
    assert_eq!(Rank::from_deviation(75_000), Some(Rank::Bronze));
    assert_eq!(Rank::from_deviation(99_999), Some(Rank::Bronze));
    assert_eq!(Rank::from_deviation(100_000), None);
}
