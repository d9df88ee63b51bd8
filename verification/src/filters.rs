//! Transport-mode edge filters: whether a way is traversable for a mode.
use crate::tags::TagSet;
use crate::tags::str_eq;
use vstd::prelude::*;

verus! {

/// Whether the tags bind `key` exactly to `value`.
pub open spec fn tag_is(m: Map<Seq<char>, Seq<char>>, key: Seq<char>, value: Seq<char>) -> bool {
    m.contains_key(key) && m[key] == value
}

/// Whether a sidewalk tag is present with a value other than `no`.
pub open spec fn sidewalk_present(m: Map<Seq<char>, Seq<char>>) -> bool {
    m.contains_key("sidewalk"@) && m["sidewalk"@] != "no"@
}

/// A way that cars must not use: the highway class is absent or one of the
/// classes closed to motor traffic.
pub open spec fn car_way_invalid(m: Map<Seq<char>, Seq<char>>) -> bool {
    if !m.contains_key("highway"@) {
        true
    } else {
        let h = m["highway"@];
        ||| h == "footway"@
        ||| h == "cycleway"@
        ||| h == "path"@
        ||| h == "pedestrian"@
        ||| h == "steps"@
        ||| h == "track"@
        ||| h == "corridor"@
        ||| h == "elevator"@
        ||| h == "escalator"@
        ||| h == "proposed"@
        ||| h == "construction"@
        ||| h == "bridleway"@
        ||| h == "abandoned"@
        ||| h == "platform"@
        ||| h == "raceway"@
        ||| h == "rest_area"@
        ||| h == "service"@
    }
}

/// A way that bicycles must not use: an explicit `bicycle=no` forbids it;
/// cycle infrastructure, any other explicit bicycle-access value or a usable
/// sidewalk allows it; otherwise the highway class decides.
pub open spec fn bicycle_way_invalid(m: Map<Seq<char>, Seq<char>>) -> bool {
    if tag_is(m, "bicycle"@, "no"@) {
        true
    } else if m.contains_key("cycleway"@) || (m.contains_key("bicycle"@) && m["bicycle"@]
        != "no"@) {
        false
    } else if sidewalk_present(m) {
        false
    } else if !m.contains_key("highway"@) {
        true
    } else {
        let h = m["highway"@];
        ||| h == "motorway"@
        ||| h == "steps"@
        ||| h == "corridor"@
        ||| h == "elevator"@
        ||| h == "escalator"@
        ||| h == "motor"@
        ||| h == "proposed"@
        ||| h == "abandoned"@
        ||| h == "platform"@
        ||| h == "raceway"@
        ||| h == "motorway_link"@
        ||| h == "trunk"@
        ||| h == "trunk_link"@
        ||| h == "rest_area"@
        ||| h == "construction"@
        ||| h == "service"@
    }
}

/// A way that pedestrians must not use: an explicit `walking=no` forbids it;
/// a usable sidewalk allows it; otherwise the highway class decides.
pub open spec fn walking_way_invalid(m: Map<Seq<char>, Seq<char>>) -> bool {
    if tag_is(m, "walking"@, "no"@) {
        true
    } else if sidewalk_present(m) {
        false
    } else if !m.contains_key("highway"@) {
        true
    } else {
        let h = m["highway"@];
        ||| h == "motorway"@
        ||| h == "motorway_link"@
        ||| h == "proposed"@
        ||| h == "construction"@
        ||| h == "abandoned"@
        ||| h == "platform"@
        ||| h == "raceway"@
        ||| h == "trunk"@
        ||| h == "trunk_link"@
    }
}

/// Classifies a way as traversable or not for one transport mode, from its
/// tags alone; `true` means the way must be skipped entirely.
pub trait EdgeFilter: Sized {
    /// What the filter rejects, as a predicate on the tag mapping.
    spec fn spec_invalid(m: Map<Seq<char>, Seq<char>>) -> bool;

    /// Whether the way carrying these tags must be skipped.
    fn is_invalid(&self, tags: &TagSet) -> (r: bool)
        ensures
            r == Self::spec_invalid(tags@),
    ;
}

/// The bicycle mode filter.
#[derive(Clone, Copy, Default)]
pub struct BicycleEdgeFilter;

impl EdgeFilter for BicycleEdgeFilter {
    open spec fn spec_invalid(m: Map<Seq<char>, Seq<char>>) -> bool {
        bicycle_way_invalid(m)
    }

    fn is_invalid(&self, tags: &TagSet) -> (r: bool) {
        let bicycle_no = match tags.get("bicycle") {
            Some(v) => str_eq(v.as_str(), "no"),
            None => false,
        };
        if bicycle_no {
            return true;
        }
        let bicycle_other = match tags.get("bicycle") {
            Some(v) => !str_eq(v.as_str(), "no"),
            None => false,
        };
        if tags.contains_key("cycleway") || bicycle_other {
            return false;
        }
        let has_side_walk = match tags.get("sidewalk") {
            Some(s) => !str_eq(s.as_str(), "no"),
            None => false,
        };
        if has_side_walk {
            return false;
        }
        match tags.get("highway") {
            None => true,
            Some(h) => {
                let h = h.as_str();
                str_eq(h, "motorway") || str_eq(h, "steps") || str_eq(h, "corridor") || str_eq(
                    h,
                    "elevator",
                ) || str_eq(h, "escalator") || str_eq(h, "motor") || str_eq(h, "proposed")
                    || str_eq(h, "abandoned") || str_eq(h, "platform") || str_eq(h, "raceway")
                    || str_eq(h, "motorway_link") || str_eq(h, "trunk") || str_eq(h, "trunk_link")
                    || str_eq(h, "rest_area") || str_eq(h, "construction") || str_eq(h, "service")
            },
        }
    }
}

/// The pedestrian mode filter.
#[derive(Clone, Copy, Default)]
pub struct WalkingEdgeFilter;

impl EdgeFilter for WalkingEdgeFilter {
    open spec fn spec_invalid(m: Map<Seq<char>, Seq<char>>) -> bool {
        walking_way_invalid(m)
    }

    fn is_invalid(&self, tags: &TagSet) -> (r: bool) {
        let walking_no = match tags.get("walking") {
            Some(v) => str_eq(v.as_str(), "no"),
            None => false,
        };
        if walking_no {
            return true;
        }
        let has_side_walk = match tags.get("sidewalk") {
            Some(s) => !str_eq(s.as_str(), "no"),
            None => false,
        };
        if has_side_walk {
            return false;
        }
        match tags.get("highway") {
            None => true,
            Some(h) => {
                let h = h.as_str();
                str_eq(h, "motorway") || str_eq(h, "motorway_link") || str_eq(h, "proposed")
                    || str_eq(h, "construction") || str_eq(h, "abandoned") || str_eq(h, "platform")
                    || str_eq(h, "raceway") || str_eq(h, "trunk") || str_eq(h, "trunk_link")
            },
        }
    }
}

/// The car mode filter.
#[derive(Clone, Copy, Default)]
pub struct CarEdgeFilter;

impl EdgeFilter for CarEdgeFilter {
    open spec fn spec_invalid(m: Map<Seq<char>, Seq<char>>) -> bool {
        car_way_invalid(m)
    }

    fn is_invalid(&self, tags: &TagSet) -> (r: bool) {
        match tags.get("highway") {
            None => true,
            Some(h) => {
                let h = h.as_str();
                str_eq(h, "footway") || str_eq(h, "cycleway") || str_eq(h, "path") || str_eq(
                    h,
                    "pedestrian",
                ) || str_eq(h, "steps") || str_eq(h, "track") || str_eq(h, "corridor") || str_eq(
                    h,
                    "elevator",
                ) || str_eq(h, "escalator") || str_eq(h, "proposed") || str_eq(h, "construction")
                    || str_eq(h, "bridleway") || str_eq(h, "abandoned") || str_eq(h, "platform")
                    || str_eq(h, "raceway") || str_eq(h, "rest_area") || str_eq(h, "service")
            },
        }
    }
}

} // verus!
