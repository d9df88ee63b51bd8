use geo::Point;
use osmtools::pbf::Node;
use osmtools::spatial::{SpatialIndex, add_nearest_nodes};

fn dist_as_f64(rank: u64) -> f64 {
    if rank >> 63 == 1 {
        f64::from_bits(rank ^ (1u64 << 63))
    } else {
        f64::from_bits(!rank)
    }
}

fn coord_rank(v: f64) -> u64 {
    let b = v.to_bits();
    if b >> 63 == 1 { !b } else { b | (1u64 << 63) }
}

#[test]
fn test_adding_nodes_same_crs() {
    let nodes_to_match = vec![
        Node::new(1, 0, 0),
        Node::new(2, 10_000_000, 0),
        Node::new(3, 20_000_000, 0),
    ];
    let points = vec![(0, 0), (0, 10_000_000)];
    let result = add_nearest_nodes(&points, &nodes_to_match, 4326);
    match result {
        Ok(matched) => {
            assert_eq!(matched.len(), 2);
            assert_eq!(dist_as_f64(matched[0].1), 0.0);
            assert_eq!(dist_as_f64(matched[1].1), Point::new(0.0, 1.0).to_radians().y());
        }
        Err(err) => panic!("No Error allowed in this test: {err:?}"),
    };
}

#[test]
fn test_adding_nodes_4839_crs() {
    let nodes_to_match = vec![
        Node::new(1, 509488246, 69117076),
        Node::new(2, 509498878, 69169238),
        Node::new(3, 509482893, 69202445),
    ];
    let points = vec![(509500121, 69217811), (509481067, 69141058)];
    let result = add_nearest_nodes(&points, &nodes_to_match, 4839);
    match result {
        Ok(matched) => {
            assert_eq!(matched.len(), 2);
            assert_eq!(matched[0].0, 3);
            assert_eq!(dist_as_f64(matched[0].1), 219.77669311702834);
            assert_eq!(matched[1].0, 1);
            assert_eq!(dist_as_f64(matched[1].1), 186.32441829502295);
        }
        Err(err) => panic!("No Error allowed in this test: {err:?}"),
    };
}

#[test]
fn exact_match_query_is_at_distance_zero() {
    // Two points at the same location: the matcher reports distance zero.
    let points = vec![
        (coord_rank(100.0), coord_rank(200.0)),
        (coord_rank(-3.5), coord_rank(7.25)),
    ];
    let index = SpatialIndex::build(points);
    let (best, dist) = index.nearest(coord_rank(-3.5), coord_rank(7.25));
    assert_eq!(best, 1);
    assert_eq!(dist_as_f64(dist), 0.0);
}

#[test]
fn nearest_prefers_the_first_of_equals() {
    let points = vec![
        (coord_rank(0.0), coord_rank(2.0)),
        (coord_rank(0.0), coord_rank(-2.0)),
    ];
    let index = SpatialIndex::build(points);
    let (best, dist) = index.nearest(coord_rank(0.0), coord_rank(0.0));
    assert_eq!(best, 0);
    assert_eq!(dist_as_f64(dist), 4.0);
}
