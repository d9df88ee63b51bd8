use osmtools::geometry::{project_point, unproject_point};

#[test]
fn projection_round_trip_stays_within_tolerance() {
    // Reprojecting a point to the planar system and back returns the
    // original coordinates within a tolerance of 1e-6 degrees, which is
    // ten steps of 1e-7 degrees.
    let cases = [
        (509488246, 69117076),
        (512040000, 32220000),
        (480000000, 110000000),
        (530000000, 100000001),
    ];
    for (lat, lon) in cases {
        let (x, y) = project_point(lat, lon, 4326, 4839).unwrap();
        let (lat_back, lon_back) = unproject_point(x, y, 4326, 4839).unwrap();
        assert!((lat - lat_back).abs() <= 10, "latitude drifted: {lat} vs {lat_back}");
        assert!((lon - lon_back).abs() <= 10, "longitude drifted: {lon} vs {lon_back}");
    }
}

#[test]
fn unknown_system_projects_nothing() {
    assert_eq!(project_point(509488246, 69117076, 4326, 9999), None);
}
