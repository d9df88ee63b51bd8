//! Coordinates, projection and planar geometry.
//!
//! Geographic coordinates are carried as integers in units of 1e-7 degrees,
//! the precision of the source extracts. Planar coordinates and distances
//! are carried as cost ranks (see [`crate::cost`]); the projection and
//! distance kernels of the outside crates sit behind trusted wrappers.
use crate::cost::SIGN_FOLD;
use geo::Contains;
use geo::Distance;
use geo::Euclidean;
use geo_types::Point;
use proj4rs::proj::Proj;
use proj4rs::transform::transform;
use std::primitive::f64 as Real;
use vstd::prelude::*;

verus! {

/// The bit pattern of the IEEE double `1.0e7`, the number of 1e-7-degree
/// steps in a degree.
const BITS_TEN_MILLION: u64 = 0x4163_12D0_0000_0000;

/// Names the planar distance in meters between two geographic points, as a
/// rank: both points are reprojected from the `from` system to the `to`
/// system and their Euclidean distance is taken. `None` when a system is
/// unknown or a point cannot be transformed.
pub uninterp spec fn planar_distance_of(
    slat: i32,
    slon: i32,
    dlat: i32,
    dlon: i32,
    from: u16,
    to: u16,
) -> Option<u64>;

/// Relies on `proj4rs::transform::transform` and geo's Euclidean distance:
/// reprojects both points (given in 1e-7 degrees) from EPSG code `from` to
/// EPSG code `to` and returns the rank of their planar distance. The
/// distance does not depend on the order of the two points.
#[verifier::external_body]
pub(crate) fn planar_distance_rank(
    slat: i32,
    slon: i32,
    dlat: i32,
    dlon: i32,
    from: u16,
    to: u16,
) -> (r: Option<u64>)
    ensures
        r == planar_distance_of(slat, slon, dlat, dlon, from, to),
        r == planar_distance_of(dlat, dlon, slat, slon, from, to),
{
    let s = Real::from_bits(BITS_TEN_MILLION);
    let fp = Proj::from_epsg_code(from).ok()?;
    let tp = Proj::from_epsg_code(to).ok()?;
    let mut a = ((slon as Real / s).to_radians(), (slat as Real / s).to_radians());
    let mut b = ((dlon as Real / s).to_radians(), (dlat as Real / s).to_radians());
    transform(&fp, &tp, &mut a).ok()?;
    transform(&fp, &tp, &mut b).ok()?;
    let bits = Euclidean.distance(Point::new(a.0, a.1), Point::new(b.0, b.1)).to_bits();
    Some(if bits >> 63 == 1 { !bits } else { bits | SIGN_FOLD })
}

/// Names the planar image of a geographic point: the point (in 1e-7
/// degrees) reprojected from the `from` system to the `to` system, as ranks
/// of its two planar coordinates. `None` when a system is unknown or the
/// point cannot be transformed.
pub uninterp spec fn projected_of(lat: i32, lon: i32, from: u16, to: u16) -> Option<(u64, u64)>;

/// Relies on `proj4rs::transform::transform`: the planar image of the point.
#[verifier::external_body]
pub(crate) fn project_rank(lat: i32, lon: i32, from: u16, to: u16) -> (r: Option<(u64, u64)>)
    ensures
        r == projected_of(lat, lon, from, to),
{
    let s = Real::from_bits(BITS_TEN_MILLION);
    let fp = Proj::from_epsg_code(from).ok()?;
    let tp = Proj::from_epsg_code(to).ok()?;
    let mut p = ((lon as Real / s).to_radians(), (lat as Real / s).to_radians());
    transform(&fp, &tp, &mut p).ok()?;
    let (xb, yb) = (p.0.to_bits(), p.1.to_bits());
    let x = if xb >> 63 == 1 { !xb } else { xb | SIGN_FOLD };
    let y = if yb >> 63 == 1 { !yb } else { yb | SIGN_FOLD };
    Some((x, y))
}

/// Names the geographic source of a planar point: the point with planar
/// coordinates of the given ranks in the `to` system, brought back to the
/// `from` system, in 1e-7 degrees rounded to the nearest step, as
/// `(latitude, longitude)`.
pub uninterp spec fn unprojected_of(x: u64, y: u64, from: u16, to: u16) -> Option<(i32, i32)>;

/// Relies on `proj4rs::transform::transform`: the geographic source of a
/// planar point, in 1e-7 degrees rounded to the nearest step.
#[verifier::external_body]
pub(crate) fn unproject_rank(x: u64, y: u64, from: u16, to: u16) -> (r: Option<(i32, i32)>)
    ensures
        r == unprojected_of(x, y, from, to),
{
    let s = Real::from_bits(BITS_TEN_MILLION);
    let fp = Proj::from_epsg_code(from).ok()?;
    let tp = Proj::from_epsg_code(to).ok()?;
    let xv = if x >> 63 == 1 { Real::from_bits(x ^ SIGN_FOLD) } else { Real::from_bits(!x) };
    let yv = if y >> 63 == 1 { Real::from_bits(y ^ SIGN_FOLD) } else { Real::from_bits(!y) };
    let mut p = (xv, yv);
    transform(&tp, &fp, &mut p).ok()?;
    Some((((p.1.to_degrees() * s).round()) as i32, ((p.0.to_degrees() * s).round()) as i32))
}

/// The planar image of a geographic point, as ranks of its two coordinates
/// in the target system.
pub fn project_point(lat: i32, lon: i32, from_crs: u16, to_crs: u16) -> (r: Option<(u64, u64)>)
    ensures
        r == projected_of(lat, lon, from_crs, to_crs),
{
    project_rank(lat, lon, from_crs, to_crs)
}

/// The geographic source of a planar point, in 1e-7 degrees rounded to the
/// nearest step, as `(latitude, longitude)`.
pub fn unproject_point(x: u64, y: u64, from_crs: u16, to_crs: u16) -> (r: Option<(i32, i32)>)
    ensures
        r == unprojected_of(x, y, from_crs, to_crs),
{
    unproject_rank(x, y, from_crs, to_crs)
}

/// A bounding region: a closed ring of geographic points, given as
/// `(longitude, latitude)` pairs in 1e-7 degrees, without holes.
pub struct BoundingRing {
    /// The ring's points, as `(longitude, latitude)` pairs in 1e-7 degrees.
    pub points: Vec<(i32, i32)>,
}

impl View for BoundingRing {
    type V = Seq<(i32, i32)>;

    open spec fn view(&self) -> Seq<(i32, i32)> {
        self.points@
    }
}

/// Names what geo's containment test returns: whether the point lies inside
/// the polygon with the given exterior ring, all in 1e-7 degrees.
pub uninterp spec fn ring_contains_of(ring: Seq<(i32, i32)>, lon: i32, lat: i32) -> bool;

/// Relies on `geo::Contains` for polygons: whether the point lies inside
/// the ring. Ring and point are handed to geo in degrees.
#[verifier::external_body]
pub(crate) fn ring_contains(ring: &BoundingRing, lon: i32, lat: i32) -> (r: bool)
    ensures
        r == ring_contains_of(ring@, lon, lat),
{
    let s = Real::from_bits(BITS_TEN_MILLION);
    let coords: Vec<(Real, Real)> =
        ring.points.iter().map(|&(x, y)| (x as Real / s, y as Real / s)).collect();
    let poly = geo_types::Polygon::new(geo_types::LineString::from(coords), vec![]);
    poly.contains(&geo_types::Point::new(lon as Real / s, lat as Real / s))
}

} // verus!
