use kiddo::distance_metric::DistanceMetric;
use osmtools::geometry::BoundingRing;
use osmtools::pbf::Node;
use osmtools::poi::{PoiLoaderBuilder, PoiType, TaggedNode, identify_type};
use osmtools::tags::TagSet;

fn poi_dist_as_f64(rank: u64) -> f64 {
    if rank >> 63 == 1 {
        f64::from_bits(rank ^ (1u64 << 63))
    } else {
        f64::from_bits(!rank)
    }
}

fn tag_set(pairs: &[(&str, &str)]) -> TagSet {
    let mut tags = TagSet::new();
    for (k, v) in pairs {
        tags.insert((*k).to_string(), (*v).to_string());
    }
    tags
}

fn planar(lat: i32, lon: i32, to: u16) -> (f64, f64) {
    let fp = proj4rs::proj::Proj::from_epsg_code(4326).unwrap();
    let tp = proj4rs::proj::Proj::from_epsg_code(to).unwrap();
    let s = 1.0e7;
    let mut p = ((lon as f64 / s).to_radians(), (lat as f64 / s).to_radians());
    proj4rs::transform::transform(&fp, &tp, &mut p).unwrap();
    p
}

#[test]
fn classifier_maps_tags_to_categories() {
    assert_eq!(identify_type(&tag_set(&[("amenity", "pharmacy")])), Some(PoiType::Health));
    assert_eq!(identify_type(&tag_set(&[("leisure", "park")])), Some(PoiType::Parks));
    assert_eq!(identify_type(&tag_set(&[("amenity", "bank")])), Some(PoiType::Banks));
    assert_eq!(identify_type(&tag_set(&[("amenity", "school")])), Some(PoiType::Education));
    assert_eq!(identify_type(&tag_set(&[("amenity", "restaurant")])), Some(PoiType::Sustenance));
    assert_eq!(identify_type(&tag_set(&[("shop", "bakery")])), Some(PoiType::Grocery));
    assert_eq!(identify_type(&tag_set(&[("shop", "books")])), Some(PoiType::Shops));
    assert_eq!(identify_type(&tag_set(&[("amenity", "fuel")])), Some(PoiType::Shops));
    assert_eq!(identify_type(&tag_set(&[("highway", "residential")])), None);
    assert_eq!(identify_type(&tag_set(&[])), None);
}

#[test]
fn classifier_priority_is_fixed() {
    // A shop tag that is also a grocery table entry classifies as grocery,
    // and a park beats everything.
    assert_eq!(
        identify_type(&tag_set(&[("shop", "kiosk")])),
        Some(PoiType::Grocery)
    );
    assert_eq!(
        identify_type(&tag_set(&[("shop", "kiosk"), ("leisure", "park")])),
        Some(PoiType::Parks)
    );
    assert_eq!(
        identify_type(&tag_set(&[("amenity", "pharmacy"), ("amenity", "bank")])),
        Some(PoiType::Banks)
    );
}

#[test]
fn pharmacy_in_region_is_matched_to_nearest_node() {
    // A node tagged amenity=pharmacy inside the region is classified into
    // the health category and assigned its nearest reference node with the
    // planar distance to it.
    let nodes_to_match = vec![
        Node::new(41, 509488246, 69117076),
        Node::new(42, 509498878, 69169238),
    ];
    let mut builder = PoiLoaderBuilder::default();
    builder
        .pbf_path_from_str("extract.osm.pbf")
        .target_crs(4839)
        .filter_geometry(BoundingRing {
            points: vec![
                (69000000, 509400000),
                (69300000, 509400000),
                (69300000, 509600000),
                (69000000, 509600000),
                (69000000, 509400000),
            ],
        })
        .nodes_to_match(nodes_to_match);
    let loader = builder.build().unwrap();

    let pharmacy = TaggedNode {
        osm_id: 7,
        lat: 509498000,
        long: 69168000,
        tags: tag_set(&[("amenity", "pharmacy")]),
    };
    let untagged = TaggedNode {
        osm_id: 8,
        lat: 509498000,
        long: 69168000,
        tags: tag_set(&[]),
    };
    let outside = TaggedNode {
        osm_id: 9,
        lat: 520000000,
        long: 69168000,
        tags: tag_set(&[("amenity", "pharmacy")]),
    };
    let pois = match loader.load_graph(&vec![pharmacy, untagged, outside]) {
        Ok(pois) => pois,
        Err(e) => panic!("No Error allowed in this test: {e:?}"),
    };
    assert_eq!(pois.len(), 1);
    let poi = &pois[0];
    assert_eq!(poi.osm_id, 7);
    assert_eq!(poi.poi_type, PoiType::Health);
    assert_eq!(poi.nearest_osm_node, 42);

    let q = planar(509498000, 69168000, 4839);
    let n = planar(509498878, 69169238, 4839);
    let expected = kiddo::SquaredEuclidean::dist(&[q.0, q.1], &[n.0, n.1]).sqrt();
    assert_eq!(poi_dist_as_f64(poi.dist_to_nearest), expected);
}

fn poi_build_error(builder: PoiLoaderBuilder) -> osmtools::pbf::LoaderBuildError {
    match builder.build() {
        Err(e) => e,
        Ok(_) => panic!("expected a build error"),
    }
}

#[test]
fn poi_builder_reports_missing_configuration() {
    let err = poi_build_error(PoiLoaderBuilder::default());
    assert_eq!(err.message(), "Missing required field target_crs");

    let mut builder = PoiLoaderBuilder::default();
    builder.target_crs(4839);
    assert_eq!(poi_build_error(builder).message(), "Missing required field nodes_to_match");

    let mut builder = PoiLoaderBuilder::default();
    builder.target_crs(4839).nodes_to_match(vec![]);
    assert_eq!(poi_build_error(builder).message(), "Missing required field nodes_to_match");

    let mut builder = PoiLoaderBuilder::default();
    builder.target_crs(9999).nodes_to_match(vec![Node::new(1, 0, 0)]);
    assert_eq!(poi_build_error(builder).message(), "Missing required field projection");

    let mut builder = PoiLoaderBuilder::default();
    builder.target_crs(4839).nodes_to_match(vec![Node::new(1, 0, 0)]);
    assert_eq!(poi_build_error(builder).message(), "Missing required field pbf_path");
}
