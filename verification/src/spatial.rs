//! The spatial matcher: a static nearest-neighbor index over a fixed
//! reference point set in planar coordinates.
//!
//! The reference set is held as a plain list and queried by a verified
//! scan. An outside tree structure is generic over its floating-point
//! scalar, which cannot stand in verified code, so only its distance
//! kernel is relied on; the search itself is proved here.
use crate::cost::RANK_ZERO;
use crate::cost::SIGN_FOLD;
use crate::cost::finite_rank;
use crate::cost::sqrt_of;
use crate::cost::sqrt_rank;
use crate::geometry::projected_of;
use crate::geometry::project_rank;
use crate::metrics::MetricError;
use crate::pbf::Node;
use crate::pbf::SOURCE_CRS;
use kiddo::distance_metric::DistanceMetric;
use std::primitive::f64 as Real;
use vstd::prelude::*;

verus! {

/// Names the squared Euclidean distance between two planar points, each
/// given as ranks of its two coordinates, as a rank.
pub uninterp spec fn dist_sq_of(ax: u64, ay: u64, bx: u64, by: u64) -> u64;

/// Relies on kiddo's squared Euclidean distance: the rank of the squared
/// distance between the points with the given coordinate ranks. Over finite
/// coordinates the squared distance never ranks below zero, and a finite
/// point is at distance zero from itself; a coordinate decoding to an
/// infinity or a quiet-not-a-number value escapes both bounds, so nothing
/// is claimed of it.
#[verifier::external_body]
pub(crate) fn dist_sq_rank(ax: u64, ay: u64, bx: u64, by: u64) -> (r: u64)
    ensures
        r == dist_sq_of(ax, ay, bx, by),
        (finite_rank(ax) && finite_rank(ay) && finite_rank(bx) && finite_rank(by)) ==> r
            >= RANK_ZERO,
        (ax == bx && ay == by && finite_rank(ax) && finite_rank(ay)) ==> r == RANK_ZERO,
{
    let axv = if ax >> 63 == 1 { Real::from_bits(ax ^ SIGN_FOLD) } else { Real::from_bits(!ax) };
    let ayv = if ay >> 63 == 1 { Real::from_bits(ay ^ SIGN_FOLD) } else { Real::from_bits(!ay) };
    let bxv = if bx >> 63 == 1 { Real::from_bits(bx ^ SIGN_FOLD) } else { Real::from_bits(!bx) };
    let byv = if by >> 63 == 1 { Real::from_bits(by ^ SIGN_FOLD) } else { Real::from_bits(!by) };
    let bits = kiddo::SquaredEuclidean::dist(&[axv, ayv], &[bxv, byv]).to_bits();
    if bits >> 63 == 1 { !bits } else { bits | SIGN_FOLD }
}

/// Every point of the set has finite planar coordinates.
pub open spec fn finite_points(points: Seq<(u64, u64)>) -> bool {
    forall|i: int|
        0 <= i < points.len() ==> finite_rank(#[trigger] points[i].0) && finite_rank(points[i].1)
}

/// The index of the reference point nearest to `(x, y)`: the first one
/// whose squared distance is minimal.
pub open spec fn nearest_index(refs: Seq<(u64, u64)>, x: u64, y: u64) -> int
    decreases refs.len(),
{
    if refs.len() <= 1 {
        0
    } else {
        let p = nearest_index(refs.drop_last(), x, y);
        if dist_sq_of(x, y, refs.last().0, refs.last().1) < dist_sq_of(x, y, refs[p].0, refs[p].1) {
            refs.len() - 1
        } else {
            p
        }
    }
}

/// The nearest index is in range, minimal, and strictly better than every
/// earlier index.
pub proof fn lemma_nearest_index(refs: Seq<(u64, u64)>, x: u64, y: u64)
    requires
        refs.len() > 0,
    ensures
        0 <= nearest_index(refs, x, y) < refs.len(),
        forall|i: int|
            0 <= i < refs.len() ==> dist_sq_of(
                x,
                y,
                refs[nearest_index(refs, x, y)].0,
                refs[nearest_index(refs, x, y)].1,
            ) <= dist_sq_of(x, y, #[trigger] refs[i].0, refs[i].1),
        forall|i: int|
            0 <= i < nearest_index(refs, x, y) ==> dist_sq_of(
                x,
                y,
                refs[nearest_index(refs, x, y)].0,
                refs[nearest_index(refs, x, y)].1,
            ) < dist_sq_of(x, y, #[trigger] refs[i].0, refs[i].1),
    decreases refs.len(),
{
    if refs.len() > 1 {
        lemma_nearest_index(refs.drop_last(), x, y);
        assert(forall|i: int|
            0 <= i < refs.len() - 1 ==> refs.drop_last()[i] == #[trigger] refs[i]);
    }
}

/// The spatial matcher: an immutable index over a fixed reference point
/// set, each point given as ranks of its two planar coordinates.
pub struct SpatialIndex {
    /// The reference points, as ranks of their planar coordinates.
    pub points: Vec<(u64, u64)>,
}

impl SpatialIndex {
    /// Builds the index over the reference points.
    pub fn build(points: Vec<(u64, u64)>) -> (r: SpatialIndex)
        ensures
            r.points@ == points@,
    {
        SpatialIndex { points }
    }

    /// The reference point nearest to the query: the first index whose
    /// squared distance to the query is minimal, and that squared distance
    /// as a rank. Over a reference set of finite points, a query equal to
    /// one of them is at distance zero.
    pub fn nearest(&self, x: u64, y: u64) -> (r: (usize, u64))
        requires
            self.points@.len() > 0,
        ensures
            r.0 == nearest_index(self.points@, x, y),
            r.1 == dist_sq_of(x, y, self.points@[r.0 as int].0, self.points@[r.0 as int].1),
            forall|i: int|
                0 <= i < self.points@.len() ==> r.1 <= dist_sq_of(
                    x,
                    y,
                    #[trigger] self.points@[i].0,
                    self.points@[i].1,
                ),
            finite_points(self.points@) && (exists|i: int|
                0 <= i < self.points@.len() && self.points@[i] == (x, y)) ==> r.1 == RANK_ZERO,
    {
        let ghost refs = self.points@;
        let mut best: usize = 0;
        let mut best_d = dist_sq_rank(x, y, self.points[0].0, self.points[0].1);
        let mut i: usize = 1;
        proof {
            assert(refs.take(1) =~= seq![refs[0]]);
        }
        while i < self.points.len()
            invariant
                refs == self.points@,
                1 <= i <= refs.len(),
                best < i,
                best == nearest_index(refs.take(i as int), x, y),
                best_d == dist_sq_of(x, y, refs[best as int].0, refs[best as int].1),
                finite_points(refs) && finite_rank(x) && finite_rank(y) ==> best_d >= RANK_ZERO,
                forall|j: int|
                    0 <= j < i ==> best_d <= dist_sq_of(
                        x,
                        y,
                        #[trigger] refs[j].0,
                        refs[j].1,
                    ),
                finite_points(refs) && (exists|j: int| 0 <= j < i && refs[j] == (x, y))
                    ==> best_d == RANK_ZERO,
            decreases refs.len() - i,
        {
            let d = dist_sq_rank(x, y, self.points[i].0, self.points[i].1);
            let ghost prev_best = best_d;
            proof {
                let t = refs.take(i + 1);
                assert(t.drop_last() =~= refs.take(i as int));
                assert(t.last() == refs[i as int]);
                assert(forall|j: int| 0 <= j < i ==> t[j] == #[trigger] refs[j]);
            }
            if d < best_d {
                best = i;
                best_d = d;
            }
            proof {
                if finite_points(refs) && (exists|j: int| 0 <= j < i + 1 && refs[j] == (x, y)) {
                    let j = choose|j: int| 0 <= j < i + 1 && refs[j] == (x, y);
                    assert(finite_rank(refs[j].0));
                    assert(finite_rank(refs[j].1));
                    assert(finite_rank(x) && finite_rank(y));
                    assert(finite_rank(refs[i as int].0));
                    assert(finite_rank(refs[i as int].1));
                    assert(d >= RANK_ZERO);
                    assert(prev_best >= RANK_ZERO);
                    if j == i {
                        assert(refs[i as int] == (x, y));
                        assert(d == RANK_ZERO);
                    } else {
                        assert(prev_best == RANK_ZERO);
                    }
                    assert(best_d == RANK_ZERO);
                }
            }
            i += 1;
        }
        proof {
            assert(refs.take(refs.len() as int) =~= refs);
        }
        (best, best_d)
    }
}

/// One matched point: the source identifier of the nearest reference node
/// and the distance to it, as a rank.
pub open spec fn spec_match_point(
    lat: i32,
    long: i32,
    nodes: Seq<Node>,
    refs: Seq<(u64, u64)>,
    target_crs: u16,
) -> Option<(u64, u64)> {
    match projected_of(lat, long, SOURCE_CRS, target_crs) {
        Some((x, y)) => {
            let idx = nearest_index(refs, x, y);
            Some(
                (nodes[idx].osm_id, sqrt_of(dist_sq_of(x, y, refs[idx].0, refs[idx].1))),
            )
        },
        None => None,
    }
}

/// The matched points, or nothing as soon as one cannot be reprojected.
pub open spec fn spec_match_points(
    points: Seq<(i32, i32)>,
    nodes: Seq<Node>,
    refs: Seq<(u64, u64)>,
    target_crs: u16,
) -> Option<Seq<(u64, u64)>>
    decreases points.len(),
{
    if points.len() == 0 {
        Some(Seq::empty())
    } else {
        match spec_match_points(points.drop_last(), nodes, refs, target_crs) {
            Some(pre) => match spec_match_point(
                points.last().0,
                points.last().1,
                nodes,
                refs,
                target_crs,
            ) {
                Some(m) => Some(pre.push(m)),
                None => None,
            },
            None => None,
        }
    }
}

/// The planar images of the reference nodes, or nothing as soon as one
/// cannot be reprojected.
pub open spec fn spec_projected_nodes(nodes: Seq<Node>, target_crs: u16) -> Option<
    Seq<(u64, u64)>,
>
    decreases nodes.len(),
{
    if nodes.len() == 0 {
        Some(Seq::empty())
    } else {
        match spec_projected_nodes(nodes.drop_last(), target_crs) {
            Some(pre) => match projected_of(
                nodes.last().lat,
                nodes.last().long,
                SOURCE_CRS,
                target_crs,
            ) {
                Some(p) => Some(pre.push(p)),
                None => None,
            },
            None => None,
        }
    }
}

/// A node that cannot be reprojected poisons the whole reference set.
proof fn lemma_projected_nodes_poison(nodes: Seq<Node>, target_crs: u16, i: int)
    requires
        0 <= i < nodes.len(),
        projected_of(nodes[i].lat, nodes[i].long, SOURCE_CRS, target_crs) is None,
    ensures
        spec_projected_nodes(nodes, target_crs) is None,
    decreases nodes.len(),
{
    if i < nodes.len() - 1 {
        assert(nodes.drop_last()[i] == nodes[i]);
        lemma_projected_nodes_poison(nodes.drop_last(), target_crs, i);
    }
}

/// A point that cannot be reprojected poisons the whole match.
proof fn lemma_match_points_poison(
    points: Seq<(i32, i32)>,
    nodes: Seq<Node>,
    refs: Seq<(u64, u64)>,
    target_crs: u16,
    i: int,
)
    requires
        0 <= i < points.len(),
        spec_match_point(points[i].0, points[i].1, nodes, refs, target_crs) is None,
    ensures
        spec_match_points(points, nodes, refs, target_crs) is None,
    decreases points.len(),
{
    if i < points.len() - 1 {
        assert(points.drop_last()[i] == points[i]);
        lemma_match_points_poison(points.drop_last(), nodes, refs, target_crs, i);
    }
}

/// A reference set that projects as a whole is as long as its source.
pub proof fn lemma_projected_nodes_len(nodes: Seq<Node>, target_crs: u16)
    requires
        spec_projected_nodes(nodes, target_crs) is Some,
    ensures
        spec_projected_nodes(nodes, target_crs).unwrap().len() == nodes.len(),
    decreases nodes.len(),
{
    if nodes.len() > 0 {
        lemma_projected_nodes_len(nodes.drop_last(), target_crs);
    }
}

/// The planar images of the reference nodes, or nothing as soon as one
/// cannot be reprojected.
pub(crate) fn project_nodes(nodes: &Vec<Node>, target_crs: u16) -> (r: Option<Vec<(u64, u64)>>)
    ensures
        match spec_projected_nodes(nodes@, target_crs) {
            Some(refs) => r is Some && r.unwrap()@ == refs,
            None => r is None,
        },
{
    let mut refs: Vec<(u64, u64)> = Vec::new();
    let mut i: usize = 0;
    while i < nodes.len()
        invariant
            0 <= i <= nodes@.len(),
            spec_projected_nodes(nodes@.take(i as int), target_crs) == Some(refs@),
            refs@.len() == i,
        decreases nodes@.len() - i,
    {
        let n = nodes[i];
        match project_rank(n.lat, n.long, SOURCE_CRS, target_crs) {
            Some(p) => {
                refs.push(p);
            },
            None => {
                proof {
                    lemma_projected_nodes_poison(nodes@, target_crs, i as int);
                }
                return None;
            },
        }
        proof {
            assert(nodes@.take(i + 1).drop_last() =~= nodes@.take(i as int));
            assert(nodes@.take(i + 1).last() == nodes@[i as int]);
        }
        i += 1;
    }
    proof {
        assert(nodes@.take(nodes@.len() as int) =~= nodes@);
    }
    Some(refs)
}

/// Matches each query point, given as `(latitude, longitude)` in 1e-7
/// degrees, to the reference node nearest to it in the planar system:
/// reprojects the reference nodes and each query point, and reports the
/// nearest node's source identifier with the planar distance to it as a
/// rank. Fails with a projection error as soon as any point cannot be
/// reprojected. Over a reference set with finite planar images, a query
/// point whose planar image equals one of them is reported at distance
/// zero.
pub fn add_nearest_nodes(
    points: &Vec<(i32, i32)>,
    nodes_to_match: &Vec<Node>,
    target_crs: u16,
) -> (r: Result<Vec<(u64, u64)>, MetricError>)
    requires
        nodes_to_match@.len() > 0,
    ensures
        match spec_projected_nodes(nodes_to_match@, target_crs) {
            Some(refs) => match spec_match_points(points@, nodes_to_match@, refs, target_crs) {
                Some(matched) => {
                    &&& r is Ok
                    &&& r.unwrap()@ == matched
                    &&& matched.len() == points@.len()
                    &&& finite_points(refs) ==> forall|i: int| #![trigger matched[i]]
                        0 <= i < points@.len() && (exists|j: int|
                            0 <= j < refs.len() && projected_of(
                                points@[i].0,
                                points@[i].1,
                                SOURCE_CRS,
                                target_crs,
                            ) == Some(#[trigger] refs[j])) ==> matched[i].1 == RANK_ZERO
                },
                None => r == Err::<Vec<(u64, u64)>, MetricError>(MetricError::Projection),
            },
            None => r == Err::<Vec<(u64, u64)>, MetricError>(MetricError::Projection),
        },
{
    let refs = match project_nodes(nodes_to_match, target_crs) {
        Some(r) => r,
        None => {
            return Err(MetricError::Projection);
        },
    };
    proof {
        lemma_projected_nodes_len(nodes_to_match@, target_crs);
    }
    let index = SpatialIndex::build(refs);
    let ghost refs_view = index.points@;

    let mut out: Vec<(u64, u64)> = Vec::new();
    let mut i: usize = 0;
    while i < points.len()
        invariant
            0 <= i <= points@.len(),
            refs_view == index.points@,
            refs_view.len() == nodes_to_match@.len() > 0,
            spec_projected_nodes(nodes_to_match@, target_crs) == Some(refs_view),
            spec_match_points(points@.take(i as int), nodes_to_match@, refs_view, target_crs)
                == Some(out@),
            out@.len() == i,
            finite_points(refs_view) ==> forall|k: int| #![trigger out@[k]]
                0 <= k < i && (exists|j: int|
                    0 <= j < refs_view.len() && projected_of(
                        points@[k].0,
                        points@[k].1,
                        SOURCE_CRS,
                        target_crs,
                    ) == Some(#[trigger] refs_view[j])) ==> out@[k].1 == RANK_ZERO,
        decreases points@.len() - i,
    {
        let (lat, long) = points[i];
        match project_rank(lat, long, SOURCE_CRS, target_crs) {
            Some((x, y)) => {
                let (best, d) = index.nearest(x, y);
                proof {
                    lemma_nearest_index(refs_view, x, y);
                }
                let dist = sqrt_rank(d);
                proof {
                    if finite_points(refs_view) && exists|j: int|
                        0 <= j < refs_view.len() && projected_of(
                            points@[i as int].0,
                            points@[i as int].1,
                            SOURCE_CRS,
                            target_crs,
                        ) == Some(#[trigger] refs_view[j]) {
                        let j = choose|j: int|
                            0 <= j < refs_view.len() && projected_of(
                                points@[i as int].0,
                                points@[i as int].1,
                                SOURCE_CRS,
                                target_crs,
                            ) == Some(#[trigger] refs_view[j]);
                        assert(refs_view[j] == (x, y));
                        assert(d == RANK_ZERO);
                        assert(dist == RANK_ZERO);
                    }
                }
                out.push((nodes_to_match[best].osm_id, dist));
            },
            None => {
                proof {
                    lemma_match_points_poison(
                        points@,
                        nodes_to_match@,
                        refs_view,
                        target_crs,
                        i as int,
                    );
                }
                return Err(MetricError::Projection);
            },
        }
        proof {
            assert(points@.take(i + 1).drop_last() =~= points@.take(i as int));
            assert(points@.take(i + 1).last() == points@[i as int]);
        }
        i += 1;
    }
    proof {
        assert(points@.take(points@.len() as int) =~= points@);
    }
    Ok(out)
}

} // verus!
