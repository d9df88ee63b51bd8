use geo::Distance;
use osmtools::filters::{BicycleEdgeFilter, CarEdgeFilter, WalkingEdgeFilter};
use osmtools::metrics::MetricError;
use osmtools::pbf::{Edge, Loader, LoaderBuildError, Node, OsmLoaderBuilder, Way};
use osmtools::geometry::BoundingRing;
use osmtools::tags::TagSet;

fn rank_as_f64(rank: u64) -> f64 {
    if rank >> 63 == 1 {
        f64::from_bits(rank ^ (1u64 << 63))
    } else {
        f64::from_bits(!rank)
    }
}

fn tag_set(pairs: &[(&str, &str)]) -> TagSet {
    let mut tags = TagSet::new();
    for (k, v) in pairs {
        tags.insert((*k).to_string(), (*v).to_string());
    }
    tags
}

fn car_loader(target_crs: u16) -> Loader<CarEdgeFilter> {
    let mut builder = OsmLoaderBuilder::default();
    builder
        .pbf_path_from_str("extract.osm.pbf")
        .edge_filter(CarEdgeFilter)
        .target_crs(target_crs);
    builder.build().unwrap()
}

/// The distance the library is expected to report, computed the same way:
/// reproject both endpoints and take the planar Euclidean distance.
fn expected_distance(slat: i32, slon: i32, dlat: i32, dlon: i32, from: u16, to: u16) -> f64 {
    let fp = proj4rs::proj::Proj::from_epsg_code(from).unwrap();
    let tp = proj4rs::proj::Proj::from_epsg_code(to).unwrap();
    let s = 1.0e7;
    let mut a = ((slon as f64 / s).to_radians(), (slat as f64 / s).to_radians());
    let mut b = ((dlon as f64 / s).to_radians(), (dlat as f64 / s).to_radians());
    proj4rs::transform::transform(&fp, &tp, &mut a).unwrap();
    proj4rs::transform::transform(&fp, &tp, &mut b).unwrap();
    geo::Euclidean.distance(geo_types::Point::new(a.0, a.1), geo_types::Point::new(b.0, b.1))
}

#[test]
fn triangular_residential_way_yields_four_priced_edges() {
    // A triangular way [A, B, C] without a oneway tag, under the car
    // filter: two edges per segment, each priced with the planar distance
    // between its endpoints.
    let loader = car_loader(4839);
    let a = Node::new(1, 512040000, 32220000);
    let b = Node::new(2, 512050000, 32260000);
    let c = Node::new(3, 512060000, 32230000);
    let way = Way {
        nodes: vec![1, 2, 3],
        tags: tag_set(&[("highway", "residential")]),
    };
    let (nodes, edges) = loader.load_graph(&vec![way], &vec![a, b, c]).unwrap();
    assert_eq!(nodes, vec![a, b, c]);
    assert_eq!(edges.len(), 4);
    let pairs: Vec<(u64, u64)> =
        edges.iter().map(|e| (e.source_osm, e.dest_osm)).collect();
    assert_eq!(pairs, vec![(1, 2), (2, 1), (2, 3), (3, 2)]);
    let d_ab = expected_distance(512040000, 32220000, 512050000, 32260000, 4326, 4839);
    let d_bc = expected_distance(512050000, 32260000, 512060000, 32230000, 4326, 4839);
    assert_eq!(rank_as_f64(edges[0].length), d_ab);
    assert_eq!(rank_as_f64(edges[1].length), d_ab);
    assert_eq!(rank_as_f64(edges[2].length), d_bc);
    assert_eq!(rank_as_f64(edges[3].length), d_bc);
}

#[test]
fn motorway_way_is_one_way_for_cars_and_closed_to_bicycles() {
    // A way tagged highway=motorway with nodes [X, Y]: exactly one edge
    // X to Y under the car filter, none under the bicycle filter.
    let loader = car_loader(4839);
    let way = Way {
        nodes: vec![7, 8],
        tags: tag_set(&[("highway", "motorway")]),
    };
    let edges = loader.process_way(&way);
    assert_eq!(edges.len(), 1);
    assert_eq!((edges[0].source_osm, edges[0].dest_osm), (7, 8));

    let mut builder = OsmLoaderBuilder::default();
    builder
        .pbf_path_from_str("extract.osm.pbf")
        .edge_filter(BicycleEdgeFilter)
        .target_crs(4839);
    let bicycle_loader = builder.build().unwrap();
    assert_eq!(bicycle_loader.process_way(&way).len(), 0);
}

#[test]
fn edge_count_follows_segments_and_direction() {
    let loader = car_loader(4839);
    let bidirectional = Way {
        nodes: vec![1, 2, 3, 4],
        tags: tag_set(&[("highway", "residential")]),
    };
    assert_eq!(loader.process_way(&bidirectional).len(), 6);
    let one_way = Way {
        nodes: vec![1, 2, 3, 4],
        tags: tag_set(&[("highway", "residential"), ("oneway", "yes")]),
    };
    assert_eq!(loader.process_way(&one_way).len(), 3);
    let single = Way {
        nodes: vec![1],
        tags: tag_set(&[("highway", "residential")]),
    };
    assert_eq!(loader.process_way(&single).len(), 0);
    let empty = Way {
        nodes: vec![],
        tags: tag_set(&[("highway", "residential")]),
    };
    assert_eq!(loader.process_way(&empty).len(), 0);
}

#[test]
fn one_way_rules() {
    let loader = car_loader(4839);
    let way = |pairs: &[(&str, &str)]| Way { nodes: vec![1, 2], tags: tag_set(pairs) };
    assert!(loader.is_one_way(&way(&[("oneway", "yes")])));
    assert!(loader.is_one_way(&way(&[("oneway", "true")])));
    assert!(!loader.is_one_way(&way(&[("oneway", "no"), ("highway", "motorway")])));
    assert!(!loader.is_one_way(&way(&[("oneway", "false"), ("junction", "roundabout")])));
    assert!(loader.is_one_way(&way(&[("highway", "motorway")])));
    assert!(loader.is_one_way(&way(&[("junction", "roundabout")])));
    assert!(loader.is_one_way(&way(&[("junction", "circular")])));
    assert!(!loader.is_one_way(&way(&[("highway", "residential")])));
}

#[test]
fn reverse_edges_overrides_one_way() {
    let mut builder = OsmLoaderBuilder::default();
    builder
        .pbf_path_from_str("extract.osm.pbf")
        .edge_filter(WalkingEdgeFilter)
        .target_crs(4839)
        .reverse_edges(true);
    let loader = builder.build().unwrap();
    let way = Way {
        nodes: vec![1, 2],
        tags: tag_set(&[("highway", "residential"), ("oneway", "yes")]),
    };
    assert_eq!(loader.process_way(&way).len(), 2);
}

#[test]
fn duplicate_ways_are_deduplicated() {
    let loader = car_loader(4839);
    let a = Node::new(1, 512040000, 32220000);
    let b = Node::new(2, 512050000, 32260000);
    let way = || Way {
        nodes: vec![1, 2],
        tags: tag_set(&[("highway", "residential")]),
    };
    let (_, edges) = loader.load_graph(&vec![way(), way()], &vec![a, b]).unwrap();
    assert_eq!(edges.len(), 2);
    let pairs: Vec<(u64, u64)> =
        edges.iter().map(|e| (e.source_osm, e.dest_osm)).collect();
    assert_eq!(pairs, vec![(1, 2), (2, 1)]);
}

#[test]
fn dominated_parallel_edges_are_pruned() {
    let loader = car_loader(4839);
    let edge = |s: u64, d: u64, len: f64| {
        let b = len.to_bits();
        Edge { source_osm: s, dest_osm: d, length: if b >> 63 == 1 { !b } else { b | (1u64 << 63) } }
    };
    // Sorted parallel edges: only the cheapest of each endpoint pair stays.
    let edges = vec![
        edge(1, 2, 4.0),
        edge(1, 2, 5.0),
        edge(1, 2, 6.0),
        edge(1, 3, 9.0),
    ];
    let kept = loader.delete_dominated_edges(edges);
    assert_eq!(kept.len(), 2);
    assert_eq!((kept[0].source_osm, kept[0].dest_osm), (1, 2));
    assert_eq!(rank_as_f64(kept[0].length), 4.0);
    assert_eq!((kept[1].source_osm, kept[1].dest_osm), (1, 3));
}

#[test]
fn dominance_checks_adjacent_pairs_only() {
    // A documented limitation: only the immediate predecessor is compared,
    // so a dominating edge separated from its victim is not applied.
    let loader = car_loader(4839);
    let edge = |s: u64, d: u64, len: f64| {
        let b = len.to_bits();
        Edge { source_osm: s, dest_osm: d, length: if b >> 63 == 1 { !b } else { b | (1u64 << 63) } }
    };
    let edges = vec![edge(1, 2, 5.0), edge(1, 3, 9.0), edge(1, 2, 6.0)];
    let kept = loader.delete_dominated_edges(edges);
    assert_eq!(kept.len(), 3);
}

#[test]
fn delete_duplicate_edges_sorts_and_dedups() {
    let loader = car_loader(4839);
    let edge = |s: u64, d: u64, len: f64| {
        let b = len.to_bits();
        Edge { source_osm: s, dest_osm: d, length: if b >> 63 == 1 { !b } else { b | (1u64 << 63) } }
    };
    let mut edges = vec![
        edge(2, 1, 5.0),
        edge(1, 2, 5.0),
        edge(2, 1, 5.0),
        edge(1, 2, 4.0),
    ];
    loader.delete_duplicate_edges(&mut edges);
    assert_eq!(edges.len(), 3);
    assert_eq!((edges[0].source_osm, edges[0].dest_osm), (1, 2));
    assert_eq!(rank_as_f64(edges[0].length), 4.0);
    assert_eq!((edges[1].source_osm, edges[1].dest_osm), (1, 2));
    assert_eq!(rank_as_f64(edges[1].length), 5.0);
    assert_eq!((edges[2].source_osm, edges[2].dest_osm), (2, 1));
}

#[test]
fn nodes_outside_the_region_are_dropped_with_their_edges() {
    let mut builder = OsmLoaderBuilder::default();
    builder
        .pbf_path_from_str("extract.osm.pbf")
        .edge_filter(CarEdgeFilter)
        .target_crs(4839)
        .filter_geometry(BoundingRing {
            points: vec![
                (32200000, 512030000),
                (32300000, 512030000),
                (32300000, 512070000),
                (32200000, 512070000),
                (32200000, 512030000),
            ],
        });
    let loader = builder.build().unwrap();
    let a = Node::new(1, 512040000, 32220000);
    let b = Node::new(2, 512050000, 32260000);
    // Far to the north: outside the ring.
    let c = Node::new(3, 520000000, 32230000);
    let way = Way {
        nodes: vec![1, 2, 3],
        tags: tag_set(&[("highway", "residential")]),
    };
    let (nodes, edges) = loader.load_graph(&vec![way], &vec![a, b, c]).unwrap();
    assert_eq!(nodes, vec![a, b]);
    let pairs: Vec<(u64, u64)> =
        edges.iter().map(|e| (e.source_osm, e.dest_osm)).collect();
    assert_eq!(pairs, vec![(1, 2), (2, 1)]);
}

#[test]
fn edges_to_missing_nodes_are_dropped() {
    let loader = car_loader(4839);
    let a = Node::new(1, 512040000, 32220000);
    let way = Way {
        nodes: vec![1, 99],
        tags: tag_set(&[("highway", "residential")]),
    };
    let (nodes, edges) = loader.load_graph(&vec![way], &vec![a]).unwrap();
    assert_eq!(nodes, vec![a]);
    assert_eq!(edges.len(), 0);
}

#[test]
fn unknown_target_crs_fails_the_load() {
    let loader = car_loader(9999);
    let a = Node::new(1, 512040000, 32220000);
    let b = Node::new(2, 512050000, 32260000);
    let way = Way {
        nodes: vec![1, 2],
        tags: tag_set(&[("highway", "residential")]),
    };
    assert_eq!(
        loader.load_graph(&vec![way], &vec![a, b]),
        Err(MetricError::Projection)
    );
}

fn build_error(builder: OsmLoaderBuilder<CarEdgeFilter>) -> LoaderBuildError {
    match builder.build() {
        Err(e) => e,
        Ok(_) => panic!("expected a build error"),
    }
}

#[test]
fn builder_reports_the_first_missing_field() {
    let err = build_error(OsmLoaderBuilder::default());
    assert_eq!(err.message(), "Missing required field target_crs");

    let mut builder = OsmLoaderBuilder::default();
    builder.target_crs(4839);
    assert_eq!(build_error(builder).message(), "Missing required field pbf_path");

    let mut builder = OsmLoaderBuilder::default();
    builder.target_crs(4839).pbf_path("extract.osm.pbf".to_string());
    assert_eq!(build_error(builder).message(), "Missing required field edge_filter");
}

#[test]
fn fresh_edges_carry_the_placeholder_cost() {
    let e = Edge::new(4, 5);
    assert_eq!(rank_as_f64(e.length), -1.0);
    let err = LoaderBuildError::new("anything".to_string());
    assert_eq!(err.message(), "Missing required field anything");
}
