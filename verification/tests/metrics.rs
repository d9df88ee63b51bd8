use osmtools::cost::{
    RANK_FIFTY, RANK_FIVE, RANK_FOUR, RANK_HALF, RANK_HUNDRED, RANK_ONE, RANK_SIX, RANK_TEN,
    RANK_THIRTY, RANK_THREE, RANK_TWO, RANK_UNSET, RANK_ZERO,
};
use osmtools::metrics::{
    BicycleUnsuitability, Distance_, EdgeCount, Metric, MetricError, TravelTime,
    UnsuitDistMetric, bounded_speed,
};
use osmtools::pbf::{MetricIndices, Node};
use osmtools::tags::TagSet;
use std::rc::Rc;

fn to_f64(rank: u64) -> f64 {
    if rank >> 63 == 1 {
        f64::from_bits(rank ^ (1u64 << 63))
    } else {
        f64::from_bits(!rank)
    }
}

fn to_rank(v: f64) -> u64 {
    let b = v.to_bits();
    if b >> 63 == 1 { !b } else { b | (1u64 << 63) }
}

fn tag_set(pairs: &[(&str, &str)]) -> TagSet {
    let mut tags = TagSet::new();
    for (k, v) in pairs {
        tags.insert((*k).to_string(), (*v).to_string());
    }
    tags
}

#[test]
fn ranks_stand_for_their_values() {
    assert_eq!(to_f64(RANK_ZERO), 0.0);
    assert_eq!(to_f64(RANK_HALF), 0.5);
    assert_eq!(to_f64(RANK_ONE), 1.0);
    assert_eq!(to_f64(RANK_TWO), 2.0);
    assert_eq!(to_f64(RANK_THREE), 3.0);
    assert_eq!(to_f64(RANK_FOUR), 4.0);
    assert_eq!(to_f64(RANK_FIVE), 5.0);
    assert_eq!(to_f64(RANK_SIX), 6.0);
    assert_eq!(to_f64(RANK_TEN), 10.0);
    assert_eq!(to_f64(RANK_THIRTY), 30.0);
    assert_eq!(to_f64(RANK_FIFTY), 50.0);
    assert_eq!(to_f64(RANK_HUNDRED), 100.0);
    assert_eq!(to_f64(RANK_UNSET), -1.0);
}

#[test]
fn ranks_order_as_values() {
    assert!(to_rank(-1.0) < RANK_ZERO);
    assert!(RANK_ZERO < RANK_HALF);
    assert!(RANK_HALF < RANK_ONE);
    assert!(to_rank(99.5) < RANK_HUNDRED);
    assert!(RANK_HUNDRED < to_rank(100.5));
    assert!(to_rank(-7.25) < to_rank(-7.0));
}

#[test]
fn bounded_speed_uses_highway_class() {
    let max = to_rank(130.0);
    assert_eq!(bounded_speed(&tag_set(&[("highway", "primary")]), max), Ok(RANK_HUNDRED));
    assert_eq!(bounded_speed(&tag_set(&[("highway", "motorway")]), max), Ok(to_rank(130.0)));
    assert_eq!(bounded_speed(&tag_set(&[("highway", "service")]), max), Ok(RANK_THIRTY));
    assert_eq!(bounded_speed(&tag_set(&[("highway", "living_street")]), max), Ok(RANK_FIVE));
    assert_eq!(bounded_speed(&tag_set(&[]), max), Ok(RANK_FIFTY));
    assert_eq!(
        bounded_speed(&tag_set(&[("highway", "tertiary")]), max),
        Ok(to_rank(70.0))
    );
}

#[test]
fn bounded_speed_clips_to_driver_maximum() {
    let max = to_rank(80.0);
    assert_eq!(bounded_speed(&tag_set(&[("highway", "primary")]), max), Ok(to_rank(80.0)));
}

#[test]
fn bounded_speed_reads_explicit_limits() {
    let max = to_rank(130.0);
    assert_eq!(
        bounded_speed(&tag_set(&[("highway", "primary"), ("maxspeed", "30")]), max),
        Ok(to_rank(30.0))
    );
    assert_eq!(
        bounded_speed(&tag_set(&[("highway", "primary"), ("maxspeed", "none")]), max),
        Ok(to_rank(130.0))
    );
    assert_eq!(
        bounded_speed(&tag_set(&[("highway", "primary"), ("maxspeed", "walk")]), max),
        Ok(RANK_TEN)
    );
    assert_eq!(
        bounded_speed(
            &tag_set(&[("highway", "primary"), ("maxspeed", "DE:living_street")]),
            max
        ),
        Ok(RANK_TEN)
    );
    // An unusable limit falls back to the clipped class speed.
    assert_eq!(
        bounded_speed(&tag_set(&[("highway", "primary"), ("maxspeed", "-5")]), max),
        Ok(RANK_HUNDRED)
    );
    assert_eq!(
        bounded_speed(&tag_set(&[("highway", "primary"), ("maxspeed", "200")]), max),
        Ok(RANK_HUNDRED)
    );
    assert_eq!(
        bounded_speed(&tag_set(&[("highway", "primary"), ("maxspeed", "fast")]), max),
        Ok(RANK_HUNDRED)
    );
}

#[test]
fn bicycle_unsuitability_scores_classes() {
    let m = BicycleUnsuitability;
    assert_eq!(m.calc(&tag_set(&[("cycleway", "lane")])), Ok(RANK_HALF));
    assert_eq!(m.calc(&tag_set(&[("bicycle", "yes")])), Ok(RANK_HALF));
    assert_eq!(m.calc(&tag_set(&[("sidewalk", "yes")])), Ok(RANK_ONE));
    assert_eq!(m.calc(&tag_set(&[("highway", "primary")])), Ok(RANK_FIVE));
    assert_eq!(m.calc(&tag_set(&[("highway", "secondary")])), Ok(RANK_FOUR));
    assert_eq!(m.calc(&tag_set(&[("highway", "tertiary")])), Ok(RANK_THREE));
    assert_eq!(m.calc(&tag_set(&[("highway", "residential")])), Ok(RANK_TWO));
    assert_eq!(m.calc(&tag_set(&[("highway", "service")])), Ok(RANK_ONE));
    assert_eq!(m.calc(&tag_set(&[("highway", "cycleway")])), Ok(RANK_HALF));
    assert_eq!(m.calc(&tag_set(&[("highway", "motorway")])), Ok(RANK_SIX));
    assert_eq!(m.calc(&tag_set(&[])), Ok(RANK_SIX));
    // An explicit refusal does not count as cycle infrastructure.
    assert_eq!(
        m.calc(&tag_set(&[("bicycle", "no"), ("highway", "residential")])),
        Ok(RANK_TWO)
    );
}

#[test]
fn edge_count_is_always_one() {
    assert_eq!(EdgeCount.calc(&tag_set(&[("highway", "primary")])), Ok(RANK_ONE));
    assert_eq!(EdgeCount.calc(&tag_set(&[])), Ok(RANK_ONE));
}

#[test]
fn metric_names_are_stable() {
    assert_eq!(Distance_.name(), "Distance_");
    assert_eq!(BicycleUnsuitability.name(), "BicycleUnsuitability");
    assert_eq!(EdgeCount.name(), "EdgeCount");
    let tt = TravelTime::new(Rc::new(Distance_), Rc::new(EdgeCount));
    assert_eq!(tt.name(), "TravelTime: Distance_ / EdgeCount");
    let ud = UnsuitDistMetric::new(Rc::new(Distance_), Rc::new(BicycleUnsuitability));
    assert_eq!(ud.name(), "UnsuitDistMetric: Distance_ / BicycleUnsuitability");
}

#[test]
fn travel_time_divides_distance_by_speed() {
    let tt = TravelTime::new(Rc::new(Distance_), Rc::new(EdgeCount));
    let mut map = MetricIndices::new();
    map.insert("Distance_".to_string(), 0);
    map.insert("EdgeCount".to_string(), 1);
    // 100 m at 36 km/h is 10 m/s: ten seconds.
    let costs = [to_rank(100.0), to_rank(36.0)];
    assert_eq!(tt.calc(&costs, &map), Ok(to_rank(10.0)));
}

#[test]
fn travel_time_rejects_zero_speed() {
    let tt = TravelTime::new(Rc::new(Distance_), Rc::new(EdgeCount));
    let mut map = MetricIndices::new();
    map.insert("Distance_".to_string(), 0);
    map.insert("EdgeCount".to_string(), 1);
    let costs = [to_rank(100.0), RANK_ZERO];
    assert_eq!(
        tt.calc(&costs, &map),
        Err(MetricError::NonFiniteTime(to_rank(100.0), RANK_ZERO))
    );
}

#[test]
fn travel_time_rejects_unknown_dependency() {
    let tt = TravelTime::new(Rc::new(Distance_), Rc::new(EdgeCount));
    let map = MetricIndices::new();
    let costs = [to_rank(100.0), to_rank(36.0)];
    assert_eq!(tt.calc(&costs, &map), Err(MetricError::UnknownMetric));
}

#[test]
fn unsuit_dist_scales_distance() {
    let ud = UnsuitDistMetric::new(Rc::new(Distance_), Rc::new(BicycleUnsuitability));
    let mut map = MetricIndices::new();
    map.insert("Distance_".to_string(), 0);
    map.insert("BicycleUnsuitability".to_string(), 1);
    let costs = [to_rank(100.0), to_rank(2.0)];
    assert_eq!(ud.calc(&costs, &map), Ok(to_rank(200.0)));
    assert_eq!(
        ud.calc(&costs, &MetricIndices::new()),
        Err(MetricError::UnknownMetric)
    );
}

#[test]
fn distance_metric_prices_node_pairs() {
    let a = Node::new(1, 512040000, 32220000);
    let b = Node::new(2, 512050000, 32260000);
    let d = match Distance_.calc(&a, &b, 4326, 4839) {
        Ok(d) => d,
        Err(e) => panic!("distance must be computable: {e:?}"),
    };
    assert!(to_f64(d) > 0.0);
    // The distance does not depend on the order of the points.
    assert_eq!(Distance_.calc(&b, &a, 4326, 4839), Ok(d));
    // A point is at distance zero from itself.
    assert_eq!(Distance_.calc(&a, &a, 4326, 4839), Ok(RANK_ZERO));
    // An unknown system is a projection error.
    assert_eq!(Distance_.calc(&a, &b, 4326, 9999), Err(MetricError::Projection));
}

#[test]
fn metric_indices_latest_assignment_wins() {
    let mut map = MetricIndices::new();
    map.insert("Distance_".to_string(), 0);
    map.insert("Distance_".to_string(), 3);
    assert_eq!(map.get("Distance_"), Some(3));
    assert_eq!(map.get("EdgeCount"), None);
}
