use osmtools::filters::{BicycleEdgeFilter, CarEdgeFilter, EdgeFilter, WalkingEdgeFilter};
use osmtools::tags::TagSet;

fn tag_set(pairs: &[(&str, &str)]) -> TagSet {
    let mut tags = TagSet::new();
    for (k, v) in pairs {
        tags.insert((*k).to_string(), (*v).to_string());
    }
    tags
}

#[test]
fn car_rejects_untagged_and_closed_classes() {
    assert!(CarEdgeFilter.is_invalid(&tag_set(&[])));
    assert!(CarEdgeFilter.is_invalid(&tag_set(&[("highway", "footway")])));
    assert!(CarEdgeFilter.is_invalid(&tag_set(&[("highway", "cycleway")])));
    assert!(CarEdgeFilter.is_invalid(&tag_set(&[("highway", "steps")])));
    assert!(CarEdgeFilter.is_invalid(&tag_set(&[("highway", "service")])));
    assert!(CarEdgeFilter.is_invalid(&tag_set(&[("highway", "rest_area")])));
}

#[test]
fn car_accepts_roads() {
    assert!(!CarEdgeFilter.is_invalid(&tag_set(&[("highway", "residential")])));
    assert!(!CarEdgeFilter.is_invalid(&tag_set(&[("highway", "motorway")])));
    assert!(!CarEdgeFilter.is_invalid(&tag_set(&[("highway", "primary")])));
}

#[test]
fn bicycle_explicit_no_wins() {
    assert!(BicycleEdgeFilter.is_invalid(&tag_set(&[
        ("highway", "residential"),
        ("bicycle", "no"),
        ("cycleway", "lane"),
    ])));
}

#[test]
fn bicycle_cycleway_overrides_motorway() {
    assert!(BicycleEdgeFilter.is_invalid(&tag_set(&[("highway", "motorway")])));
    assert!(!BicycleEdgeFilter.is_invalid(&tag_set(&[
        ("highway", "motorway"),
        ("cycleway", "lane"),
    ])));
    assert!(!BicycleEdgeFilter.is_invalid(&tag_set(&[
        ("highway", "motorway"),
        ("bicycle", "yes"),
    ])));
}

#[test]
fn bicycle_sidewalk_allows_unless_no() {
    assert!(!BicycleEdgeFilter.is_invalid(&tag_set(&[
        ("highway", "trunk"),
        ("sidewalk", "both"),
    ])));
    assert!(BicycleEdgeFilter.is_invalid(&tag_set(&[
        ("highway", "trunk"),
        ("sidewalk", "no"),
    ])));
    assert!(BicycleEdgeFilter.is_invalid(&tag_set(&[])));
    assert!(!BicycleEdgeFilter.is_invalid(&tag_set(&[("highway", "residential")])));
}

#[test]
fn walking_explicit_no_wins() {
    assert!(WalkingEdgeFilter.is_invalid(&tag_set(&[
        ("highway", "residential"),
        ("walking", "no"),
    ])));
}

#[test]
fn walking_sidewalk_allows_motorway() {
    assert!(WalkingEdgeFilter.is_invalid(&tag_set(&[("highway", "motorway")])));
    assert!(!WalkingEdgeFilter.is_invalid(&tag_set(&[
        ("highway", "motorway"),
        ("sidewalk", "right"),
    ])));
    assert!(WalkingEdgeFilter.is_invalid(&tag_set(&[("highway", "trunk")])));
    assert!(!WalkingEdgeFilter.is_invalid(&tag_set(&[("highway", "footway")])));
    assert!(WalkingEdgeFilter.is_invalid(&tag_set(&[])));
}

#[test]
fn tag_set_last_binding_wins() {
    let mut tags = TagSet::new();
    tags.insert("highway".to_string(), "footway".to_string());
    tags.insert("highway".to_string(), "residential".to_string());
    assert_eq!(tags.get("highway").unwrap(), "residential");
    assert!(tags.contains_pair("highway", "residential"));
    assert!(!tags.contains_pair("highway", "footway"));
    assert!(tags.get("maxspeed").is_none());
}
