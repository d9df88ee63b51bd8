//! The metric framework: named scalar computations over tags, node pairs
//! and already-computed cost vectors. All values are cost ranks (see
//! [`crate::cost`]).
use crate::cost::RANK_EIGHTY;
use crate::cost::RANK_FIFTY;
use crate::cost::RANK_FIVE;
use crate::cost::RANK_FOUR;
use crate::cost::RANK_HALF;
use crate::cost::RANK_HUNDRED;
use crate::cost::RANK_ONE;
use crate::cost::RANK_SEVENTY;
use crate::cost::RANK_SIX;
use crate::cost::RANK_TEN;
use crate::cost::RANK_THIRTY;
use crate::cost::RANK_THREE;
use crate::cost::RANK_TWO;
use crate::cost::RANK_ZERO;
use crate::cost::parse_rank;
use crate::cost::parsed_rank_of;
use crate::cost::product_of;
use crate::cost::product_rank;
use crate::cost::travel_time_of;
use crate::cost::travel_time_rank;
use crate::filters::tag_is;
use crate::geometry::planar_distance_of;
use crate::geometry::planar_distance_rank;
use crate::pbf::MetricIndices;
use crate::pbf::Node;
use crate::tags::TagSet;
use crate::tags::str_eq;
use std::rc::Rc;
use vstd::prelude::*;

verus! {

/// Why a metric could not be computed.
#[derive(Clone, Copy, PartialEq, Eq, Structural, Debug)]
pub enum MetricError {
    /// A metric referenced a dependency name that the index does not hold:
    /// a configuration mistake, fatal for the whole load.
    UnknownMetric,
    /// A travel time came out non-finite (the distance and speed ranks that
    /// produced it): a zero speed on a traversable edge, fatal for the load.
    NonFiniteTime(u64, u64),
    /// A point could not be reprojected: the coordinate system is unknown
    /// or the point lies outside its domain.
    Projection,
}

pub type MetricResult<T> = Result<T, MetricError>;

/// A named computation; the name keys the metric's slot in the cost vector.
pub trait Metric: Sized {
    /// The metric's name.
    spec fn spec_name(&self) -> Seq<char>;

    /// The metric's name.
    fn name(&self) -> (r: String)
        ensures
            r@ == self.spec_name(),
    ;
}

/// The free-flow speed of a way in km/h (as a rank), from its highway class
/// alone.
pub open spec fn tag_speed_of(m: Map<Seq<char>, Seq<char>>, driver_max: u64) -> u64 {
    if !m.contains_key("highway"@) {
        RANK_FIFTY
    } else {
        let h = m["highway"@];
        if h == "motorway"@ || h == "trunk"@ {
            driver_max
        } else if h == "primary"@ {
            RANK_HUNDRED
        } else if h == "secondary"@ || h == "trunk_link"@ {
            RANK_EIGHTY
        } else if h == "motorway_link"@ || h == "primary_link"@ || h == "secondary_link"@ || h
            == "tertiary"@ || h == "tertiary_link"@ {
            RANK_SEVENTY
        } else if h == "service"@ {
            RANK_THIRTY
        } else if h == "living_street"@ {
            RANK_FIVE
        } else {
            RANK_FIFTY
        }
    }
}

/// The explicit speed limit of a way in km/h (as a rank), when its tags
/// state one.
pub open spec fn max_speed_of(m: Map<Seq<char>, Seq<char>>, driver_max: u64) -> Option<u64> {
    if !m.contains_key("maxspeed"@) {
        None
    } else {
        let v = m["maxspeed"@];
        if v == "none"@ {
            Some(driver_max)
        } else if v == "walk"@ || v == "DE:walk"@ || v == "living_street"@ || v
            == "DE:living_street"@ {
            Some(RANK_TEN)
        } else {
            parsed_rank_of(v)
        }
    }
}

/// The bounded free-flow speed of a way in km/h (as a rank): the explicit
/// limit when it is positive and within the driver's maximum, otherwise the
/// class speed clipped to that maximum.
pub open spec fn bounded_speed_of(m: Map<Seq<char>, Seq<char>>, driver_max: u64) -> u64 {
    let tag_speed = tag_speed_of(m, driver_max);
    let clipped = if tag_speed <= driver_max {
        tag_speed
    } else {
        driver_max
    };
    match max_speed_of(m, driver_max) {
        Some(s) => if RANK_ZERO < s && s <= driver_max {
            s
        } else {
            clipped
        },
        None => clipped,
    }
}

/// The bounded free-flow speed estimate of a way, in km/h as a rank:
/// derived from the highway class and an explicit `maxspeed` tag, clipped
/// to the caller's maximum `driver_max` (also a rank).
pub fn bounded_speed(tags: &TagSet, driver_max: u64) -> (r: MetricResult<u64>)
    ensures
        r == Ok::<u64, MetricError>(bounded_speed_of(tags@, driver_max)),
{
    let tag_speed: u64 = match tags.get("highway") {
        None => RANK_FIFTY,
        Some(h) => {
            let h = h.as_str();
            if str_eq(h, "motorway") || str_eq(h, "trunk") {
                driver_max
            } else if str_eq(h, "primary") {
                RANK_HUNDRED
            } else if str_eq(h, "secondary") || str_eq(h, "trunk_link") {
                RANK_EIGHTY
            } else if str_eq(h, "motorway_link") || str_eq(h, "primary_link") || str_eq(
                h,
                "secondary_link",
            ) || str_eq(h, "tertiary") || str_eq(h, "tertiary_link") {
                RANK_SEVENTY
            } else if str_eq(h, "service") {
                RANK_THIRTY
            } else if str_eq(h, "living_street") {
                RANK_FIVE
            } else {
                RANK_FIFTY
            }
        },
    };
    let max_speed: Option<u64> = match tags.get("maxspeed") {
        None => None,
        Some(v) => {
            let v = v.as_str();
            if str_eq(v, "none") {
                Some(driver_max)
            } else if str_eq(v, "walk") || str_eq(v, "DE:walk") || str_eq(v, "living_street")
                || str_eq(v, "DE:living_street") {
                Some(RANK_TEN)
            } else {
                parse_rank(v)
            }
        },
    };
    let clipped = if tag_speed <= driver_max {
        tag_speed
    } else {
        driver_max
    };
    let speed = match max_speed {
        Some(s) => if RANK_ZERO < s && s <= driver_max {
            s
        } else {
            clipped
        },
        None => clipped,
    };
    Ok(speed)
}

/// The planar distance between an edge's endpoints.
pub struct Distance_;

impl Metric for Distance_ {
    open spec fn spec_name(&self) -> Seq<char> {
        "Distance_"@
    }

    fn name(&self) -> (r: String) {
        "Distance_".to_owned()
    }
}

impl Distance_ {
    /// The planar distance in meters (as a rank) between the two nodes,
    /// after reprojecting both from `from_crs` to `target_crs`; an error
    /// when a point cannot be reprojected. The distance does not depend on
    /// the order of the two nodes, so the second clause states the same
    /// result over the swapped endpoints.
    pub fn calc(&self, source: &Node, target: &Node, from_crs: u16, target_crs: u16) -> (r:
        MetricResult<u64>)
        ensures
            (match planar_distance_of(
                source.lat,
                source.long,
                target.lat,
                target.long,
                from_crs,
                target_crs,
            ) {
                Some(d) => r == Ok::<u64, MetricError>(d),
                None => r == Err::<u64, MetricError>(MetricError::Projection),
            }),
            (match planar_distance_of(
                target.lat,
                target.long,
                source.lat,
                source.long,
                from_crs,
                target_crs,
            ) {
                Some(d) => r == Ok::<u64, MetricError>(d),
                None => r == Err::<u64, MetricError>(MetricError::Projection),
            }),
    {
        match planar_distance_rank(
            source.lat,
            source.long,
            target.lat,
            target.long,
            from_crs,
            target_crs,
        ) {
            Some(d) => Ok(d),
            None => Err(MetricError::Projection),
        }
    }
}

/// Travel time: a distance metric divided by a speed metric.
pub struct TravelTime<D: Metric, S: Metric> {
    pub distance: Rc<D>,
    pub speed: Rc<S>,
}

impl<D: Metric, S: Metric> Metric for TravelTime<D, S> {
    open spec fn spec_name(&self) -> Seq<char> {
        "TravelTime: "@ + (*self.distance).spec_name() + " / "@ + (*self.speed).spec_name()
    }

    fn name(&self) -> (r: String) {
        let mut r = "TravelTime: ".to_owned();
        r.append(self.distance.name().as_str());
        r.append(" / ");
        r.append(self.speed.name().as_str());
        r
    }
}

impl<D: Metric, S: Metric> TravelTime<D, S> {
    pub fn new(distance: Rc<D>, speed: Rc<S>) -> (r: TravelTime<D, S>)
        ensures
            r.distance == distance,
            r.speed == speed,
    {
        TravelTime { distance, speed }
    }

    /// The travel time in seconds (as a rank): the cost-vector component of
    /// the distance metric divided by that of the speed metric brought to
    /// meters per second. Unknown dependency names and non-finite times are
    /// errors.
    pub fn calc(&self, costs: &[u64], map: &MetricIndices) -> (r: MetricResult<u64>)
        requires
            map@.contains_key((*self.distance).spec_name()) ==> map@[(*self.distance).spec_name()]
                < costs@.len(),
            map@.contains_key((*self.speed).spec_name()) ==> map@[(*self.speed).spec_name()]
                < costs@.len(),
        ensures
            ({
                let m = map@;
                let dn = (*self.distance).spec_name();
                let sn = (*self.speed).spec_name();
                if !m.contains_key(dn) {
                    r == Err::<u64, MetricError>(MetricError::UnknownMetric)
                } else if !m.contains_key(sn) {
                    r == Err::<u64, MetricError>(MetricError::UnknownMetric)
                } else {
                    let d = costs@[m[dn] as int];
                    let s = costs@[m[sn] as int];
                    match travel_time_of(d, s) {
                        Some(t) => r == Ok::<u64, MetricError>(t),
                        None => r == Err::<u64, MetricError>(MetricError::NonFiniteTime(d, s)),
                    }
                }
            }),
    {
        let dist_index = match map.get(self.distance.name().as_str()) {
            Some(i) => i,
            None => return Err(MetricError::UnknownMetric),
        };
        let speed_index = match map.get(self.speed.name().as_str()) {
            Some(i) => i,
            None => return Err(MetricError::UnknownMetric),
        };
        let dist = costs[dist_index];
        let speed = costs[speed_index];
        match travel_time_rank(dist, speed) {
            Some(t) => Ok(t),
            None => Err(MetricError::NonFiniteTime(dist, speed)),
        }
    }
}

/// Unsuitability-weighted distance: a distance metric scaled by an
/// unsuitability metric.
pub struct UnsuitDistMetric<U: Metric, D: Metric> {
    pub distance: Rc<D>,
    pub unsuitability: Rc<U>,
}

impl<U: Metric, D: Metric> Metric for UnsuitDistMetric<U, D> {
    open spec fn spec_name(&self) -> Seq<char> {
        "UnsuitDistMetric: "@ + (*self.distance).spec_name() + " / "@
            + (*self.unsuitability).spec_name()
    }

    fn name(&self) -> (r: String) {
        let mut r = "UnsuitDistMetric: ".to_owned();
        r.append(self.distance.name().as_str());
        r.append(" / ");
        r.append(self.unsuitability.name().as_str());
        r
    }
}

impl<U: Metric, D: Metric> UnsuitDistMetric<U, D> {
    pub fn new(distance: Rc<D>, unsuitability: Rc<U>) -> (r: UnsuitDistMetric<U, D>)
        ensures
            r.distance == distance,
            r.unsuitability == unsuitability,
    {
        UnsuitDistMetric { distance, unsuitability }
    }

    /// The unsuitability-weighted distance (as a rank): the cost-vector
    /// component of the unsuitability metric times that of the distance
    /// metric. Unknown dependency names are errors.
    pub fn calc(&self, costs: &[u64], map: &MetricIndices) -> (r: MetricResult<u64>)
        requires
            map@.contains_key((*self.distance).spec_name()) ==> map@[(*self.distance).spec_name()]
                < costs@.len(),
            map@.contains_key((*self.unsuitability).spec_name()) ==> map@[(
            *self.unsuitability).spec_name()] < costs@.len(),
        ensures
            ({
                let m = map@;
                let dn = (*self.distance).spec_name();
                let un = (*self.unsuitability).spec_name();
                if !m.contains_key(dn) {
                    r == Err::<u64, MetricError>(MetricError::UnknownMetric)
                } else if !m.contains_key(un) {
                    r == Err::<u64, MetricError>(MetricError::UnknownMetric)
                } else {
                    r == Ok::<u64, MetricError>(
                        product_of(costs@[m[un] as int], costs@[m[dn] as int]),
                    )
                }
            }),
    {
        let dist_index = match map.get(self.distance.name().as_str()) {
            Some(i) => i,
            None => return Err(MetricError::UnknownMetric),
        };
        let unsuitability_index = match map.get(self.unsuitability.name().as_str()) {
            Some(i) => i,
            None => return Err(MetricError::UnknownMetric),
        };
        Ok(product_rank(costs[unsuitability_index], costs[dist_index]))
    }
}

/// How unsuitable a way is for cycling, from its tags: cycle-friendly
/// infrastructure scores lowest, arterial roads without it score highest.
pub open spec fn bicycle_unsuitability_of(m: Map<Seq<char>, Seq<char>>) -> u64 {
    if m.contains_key("cycleway"@) || (m.contains_key("bicycle"@) && m["bicycle"@] != "no"@) {
        RANK_HALF
    } else if tag_is(m, "sidewalk"@, "yes"@) {
        RANK_ONE
    } else if !m.contains_key("highway"@) {
        RANK_SIX
    } else {
        let h = m["highway"@];
        if h == "primary"@ || h == "primary_link"@ {
            RANK_FIVE
        } else if h == "secondary"@ || h == "secondary_link"@ {
            RANK_FOUR
        } else if h == "tertiary"@ || h == "tertiary_link"@ || h == "road"@ || h == "bridleway"@ {
            RANK_THREE
        } else if h == "unclassified"@ || h == "residential"@ || h == "traffic_island"@ {
            RANK_TWO
        } else if h == "living_street"@ || h == "service"@ || h == "track"@ || h == "platform"@
            || h == "pedestrian"@ || h == "path"@ || h == "footway"@ {
            RANK_ONE
        } else if h == "cycleway"@ {
            RANK_HALF
        } else {
            RANK_SIX
        }
    }
}

/// A tag-driven unsuitability score for cycling.
pub struct BicycleUnsuitability;

impl Metric for BicycleUnsuitability {
    open spec fn spec_name(&self) -> Seq<char> {
        "BicycleUnsuitability"@
    }

    fn name(&self) -> (r: String) {
        "BicycleUnsuitability".to_owned()
    }
}

impl BicycleUnsuitability {
    /// The unsuitability score of a way (as a rank), from its tags alone.
    pub fn calc(&self, tags: &TagSet) -> (r: MetricResult<u64>)
        ensures
            r == Ok::<u64, MetricError>(bicycle_unsuitability_of(tags@)),
    {
        let bicycle_other = match tags.get("bicycle") {
            Some(v) => !str_eq(v.as_str(), "no"),
            None => false,
        };
        if tags.contains_key("cycleway") || bicycle_other {
            return Ok(RANK_HALF);
        }
        if tags.contains_pair("sidewalk", "yes") {
            return Ok(RANK_ONE);
        }
        let unsuitability = match tags.get("highway") {
            None => RANK_SIX,
            Some(h) => {
                let h = h.as_str();
                if str_eq(h, "primary") || str_eq(h, "primary_link") {
                    RANK_FIVE
                } else if str_eq(h, "secondary") || str_eq(h, "secondary_link") {
                    RANK_FOUR
                } else if str_eq(h, "tertiary") || str_eq(h, "tertiary_link") || str_eq(h, "road")
                    || str_eq(h, "bridleway") {
                    RANK_THREE
                } else if str_eq(h, "unclassified") || str_eq(h, "residential") || str_eq(
                    h,
                    "traffic_island",
                ) {
                    RANK_TWO
                } else if str_eq(h, "living_street") || str_eq(h, "service") || str_eq(h, "track")
                    || str_eq(h, "platform") || str_eq(h, "pedestrian") || str_eq(h, "path")
                    || str_eq(h, "footway") {
                    RANK_ONE
                } else if str_eq(h, "cycleway") {
                    RANK_HALF
                } else {
                    RANK_SIX
                }
            },
        };
        Ok(unsuitability)
    }
}

/// The constant weight of one edge.
pub struct EdgeCount;

impl Metric for EdgeCount {
    open spec fn spec_name(&self) -> Seq<char> {
        "EdgeCount"@
    }

    fn name(&self) -> (r: String) {
        "EdgeCount".to_owned()
    }
}

impl EdgeCount {
    /// Every edge counts one (as a rank).
    pub fn calc(&self, _tags: &TagSet) -> (r: MetricResult<u64>)
        ensures
            r == Ok::<u64, MetricError>(RANK_ONE),
    {
        Ok(RANK_ONE)
    }
}

} // verus!
