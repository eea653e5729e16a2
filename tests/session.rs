use holding_trainer::{
    BeaconRange, EntryType, HoldingPattern, PositionSample, TrackPoint, NO_DISTANCE,
};

const EARTH_RADIUS_NM: f64 = 3440.065;

fn sample(heading_deg: u32, time: u64) -> PositionSample {
    PositionSample { lat: 400_000_000, lon: -30_100_000, heading: heading_deg * 1000, time }
}

fn at(distance_mnm: u64, bearing_deg: u32) -> BeaconRange {
    BeaconRange { distance: distance_mnm, bearing: bearing_deg * 1000 }
}

/// Distance and bearing from the aircraft to the beacon, in the library's units.
fn range_between(lat: f64, lon: f64, beacon_lat: f64, beacon_lon: f64) -> BeaconRange {
    let (phi_a, phi_b) = (lat.to_radians(), beacon_lat.to_radians());
    let dlat = (beacon_lat - lat).to_radians();
    let dlon = (beacon_lon - lon).to_radians();
    let a = (dlat / 2.0).sin().powi(2) + phi_a.cos() * phi_b.cos() * (dlon / 2.0).sin().powi(2);
    let nm = EARTH_RADIUS_NM * 2.0 * a.sqrt().atan2((1.0 - a).sqrt());
    let y = dlon.sin() * phi_b.cos();
    let x = phi_a.cos() * phi_b.sin() - phi_a.sin() * phi_b.cos() * dlon.cos();
    let raw = (y.atan2(x).to_degrees() * 1000.0).round() as i64;
    BeaconRange {
        distance: (nm * 1000.0).round() as u64,
        bearing: holding_trainer::normalize_angle(raw),
    }
}

#[test]
fn new_session_is_idle() {
    let h = HoldingPattern::new();
    assert!(!h.active);
    assert!(!h.entry_captured);
    assert!(h.track_points.is_empty());
    assert_eq!(h.correct_entry, None);
    assert_eq!(h.last_distance, NO_DISTANCE);
    assert_eq!(NO_DISTANCE, 999_000);
    assert_eq!(HoldingPattern::default().last_distance, NO_DISTANCE);
}

#[test]
fn start_sets_the_courses() {
    let mut h = HoldingPattern::new();
    h.start(90, true);
    assert!(h.active);
    assert_eq!(h.radial, 90);
    assert_eq!(h.outbound_course, 90_000);
    assert_eq!(h.inbound_course, 270_000);
    h.start(270, false);
    assert_eq!(h.inbound_course, 90_000);
    assert!(!h.right_turns);
    h.start(0, true);
    assert_eq!(h.inbound_course, 180_000);
}

#[test]
fn start_random_picks_a_radial_on_the_ten_degree_grid() {
    let mut h = HoldingPattern::new();
    for _ in 0..200 {
        h.start_random();
        assert!(h.active);
        assert!((0..360).contains(&h.radial));
        assert_eq!(h.radial % 10, 0);
        assert_eq!(h.inbound_course as i32, ((h.radial + 180) % 360) * 1000);
        assert!(!h.entry_captured);
    }
}

#[test]
fn inactive_session_ignores_samples() {
    let mut h = HoldingPattern::new();
    assert!(!h.observe(sample(90, 0), at(4_000, 90)));
    assert!(!h.entry_captured);
    assert_eq!(h.last_distance, NO_DISTANCE);
    assert!(h.track_points.is_empty());
}

#[test]
fn first_reading_inside_the_ring_captures() {
    let mut h = HoldingPattern::new();
    h.start(90, true);
    assert!(h.observe(sample(90, 0), at(4_950, 90)));
    assert!(h.entry_captured);
    assert_eq!(h.track_points.len(), 1);
}

#[test]
fn closing_in_captures_only_inside_the_ring() {
    let mut g = HoldingPattern::new();
    g.start(90, true);
    assert!(!g.observe(sample(90, 0), at(5_100, 90)));
    assert!(!g.observe(sample(90, 1000), at(4_950, 181)));
    assert!(g.observe(sample(90, 2000), at(4_900, 100)));
    assert!(g.entry_captured);
    assert_eq!(g.start_heading, 90_000);
    assert_eq!(g.track_points.len(), 1);
}

#[test]
fn capture_needs_closing_distance() {
    // The earlier reading is taken as the one before: its distance is the
    // session's last distance.
    let mut away = HoldingPattern::new();
    away.start(0, true);
    away.last_distance = 4_900;
    assert!(!away.observe(sample(0, 0), at(4_950, 0)));
    assert!(!away.entry_captured);

    let mut closing = HoldingPattern::new();
    closing.start(0, true);
    closing.last_distance = 4_950;
    assert!(closing.observe(sample(0, 0), at(4_900, 45)));
    assert!(closing.entry_captured);
}

#[test]
fn capture_needs_closing_distance_from_fed_samples() {
    // The first reading heads away, so it only sets the distance.
    let mut away = HoldingPattern::new();
    away.start(0, true);
    assert!(!away.observe(sample(180, 0), at(4_900, 0)));
    assert!(!away.observe(sample(0, 1000), at(4_950, 0)));
    assert!(!away.entry_captured);

    let mut closing = HoldingPattern::new();
    closing.start(0, true);
    assert!(!closing.observe(sample(180, 0), at(4_950, 0)));
    assert!(closing.observe(sample(0, 1000), at(4_900, 0)));
    assert!(closing.entry_captured);
}

#[test]
fn heading_away_from_the_beacon_does_not_capture() {
    let mut h = HoldingPattern::new();
    h.start(0, true);
    assert!(!h.observe(sample(269, 0), at(4_900, 0)));
    assert!(!h.observe(sample(180, 1), at(4_800, 0)));
    assert!(!h.observe(sample(91, 2), at(4_700, 0)));
    assert!(h.observe(sample(90, 3), at(4_600, 0)));
    // 350 versus 10 degrees is 20 degrees apart.
    let mut g = HoldingPattern::new();
    g.start(0, true);
    assert!(g.observe(sample(350, 0), at(4_000, 10)));
}

#[test]
fn capture_at_the_ring_itself() {
    let mut h = HoldingPattern::new();
    h.start(0, true);
    assert!(!h.observe(sample(0, 0), at(5_001, 0)));
    assert!(h.observe(sample(0, 1), at(5_000, 0)));
}

#[test]
fn captured_entry_never_changes() {
    let mut h = HoldingPattern::new();
    h.start(180, false);
    let first = PositionSample { lat: 10, lon: 20, heading: 45_000, time: 0 };
    assert!(h.observe(first, at(4_000, 40)));
    for i in 1..20u64 {
        let p = PositionSample { lat: 10 + i as i64, lon: 20, heading: (i as u32 * 17_000) % 360_000, time: i };
        assert!(!h.observe(p, at(4_000 - i * 100, 40)));
        assert!(h.entry_captured);
        assert_eq!(h.start_heading, 45_000);
        assert_eq!(h.entry_lat, 10);
        assert_eq!(h.entry_lon, 20);
    }
    assert_eq!(h.track_points.len(), 20);
    assert_eq!(h.track_points[0], TrackPoint { lat: 10, lon: 20, time: 0 });
    assert_eq!(h.last_distance, 4_000 - 19 * 100);
}

#[test]
fn classification_before_capture_changes_nothing() {
    let mut h = HoldingPattern::new();
    h.start(90, true);
    assert!(!h.observe(sample(270, 0), at(4_000, 90)));
    assert_eq!(h.request_classification(), None);
    assert_eq!(h.correct_entry, None);
    assert!(!h.entry_captured);
    assert_eq!(h.last_distance, 4_000);
}

#[test]
fn restart_clears_capture_and_track() {
    let mut h = HoldingPattern::new();
    h.start(90, true);
    assert!(h.observe(sample(90, 0), at(4_900, 90)));
    assert!(!h.observe(sample(90, 1000), at(4_800, 90)));
    assert_eq!(h.request_classification(), Some(EntryType::Parallel));
    assert_eq!(h.track_points.len(), 2);
    h.start(200, false);
    assert!(h.active);
    assert!(!h.entry_captured);
    assert!(h.track_points.is_empty());
    assert_eq!(h.last_distance, NO_DISTANCE);
    assert_eq!(h.correct_entry, None);
    assert_eq!(h.start_heading, 0);
    assert_eq!((h.entry_lat, h.entry_lon), (0, 0));
    assert_eq!(h.inbound_course, 20_000);
}

#[test]
fn capture_entry_records_and_classifies() {
    let mut idle = HoldingPattern::new();
    assert_eq!(idle.capture_entry(sample(90, 0)), None);
    assert!(!idle.entry_captured);

    let mut h = HoldingPattern::new();
    h.start(0, true);
    // Inbound course 180; heading 270 lies 90 degrees clockwise of it.
    let e = h.capture_entry(PositionSample { lat: 5, lon: 6, heading: 270_000, time: 0 });
    assert_eq!(e, Some(EntryType::DirectTeardrop));
    assert!(h.entry_captured);
    assert_eq!((h.entry_lat, h.entry_lon, h.start_heading), (5, 6, 270_000));
    assert_eq!(h.correct_entry, Some(EntryType::DirectTeardrop));
}

#[test]
fn approach_from_the_west_enters_with_a_parallel() {
    let (beacon_lat, beacon_lon): (f64, f64) = (40.0, -3.0);
    let nm_per_degree_lon = 60.0 * beacon_lat.to_radians().cos();
    let mut h = HoldingPattern::new();
    h.start(90, true);
    assert_eq!(h.inbound_course, 270_000);

    let mut captured_at = Vec::new();
    for (i, nm) in [5.01f64, 4.98, 4.5].iter().enumerate() {
        let lon = beacon_lon - nm / nm_per_degree_lon;
        let range = range_between(beacon_lat, lon, beacon_lat, beacon_lon);
        let p = PositionSample {
            lat: (beacon_lat * 1e7).round() as i64,
            lon: (lon * 1e7).round() as i64,
            heading: 90_000,
            time: i as u64 * 1000,
        };
        if h.observe(p, range) {
            captured_at.push(i);
        }
    }
    assert_eq!(captured_at, vec![1]);
    assert_eq!(h.start_heading, 90_000);
    assert_eq!(h.track_points.len(), 2);
    assert_eq!(h.request_classification(), Some(EntryType::Parallel));
    assert_eq!(h.correct_entry, Some(EntryType::Parallel));
}

#[test]
fn same_point_gives_zero_distance() {
    let r = range_between(40.0, -3.0, 40.0, -3.0);
    assert_eq!(r.distance, 0);
}
