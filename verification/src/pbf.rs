//! The routable graph: nodes, edges, the loader and its builder.
use crate::cost::RANK_UNSET;
use crate::filters::EdgeFilter;
use crate::filters::tag_is;
use crate::geometry::BoundingRing;
use crate::geometry::planar_distance_of;
use crate::geometry::ring_contains;
use crate::geometry::ring_contains_of;
use crate::metrics::Distance_;
use crate::metrics::MetricError;
use crate::prune::dedup_edges;
use crate::prune::dedup_edges_spec;
use crate::prune::prune_dominated;
use crate::prune::prune_dominated_spec;
use crate::prune::sort_edges;
use crate::prune::sort_edges_spec;
use crate::tags::TagSet;
use crate::tags::str_eq;
use std::collections::HashMap;
use std::collections::HashSet;
use vstd::prelude::*;

verus! {

/// The identifier a node carries in the source extract.
pub type OsmNodeId = u64;

/// A latitude in 1e-7 degrees, the precision of the source extracts.
pub type Latitude = i32;

/// A longitude in 1e-7 degrees.
pub type Longitude = i32;

/// A graph node: the source identifier and the geographic position.
#[derive(Clone, Copy, PartialEq, Eq, Structural, Debug)]
pub struct Node {
    pub osm_id: OsmNodeId,
    pub lat: Latitude,
    pub long: Longitude,
}

impl Node {
    pub fn new(osm_id: OsmNodeId, lat: Latitude, long: Longitude) -> (r: Node)
        ensures
            r == (Node { osm_id, lat, long }),
    {
        Node { osm_id, lat, long }
    }
}

/// A graph edge between two nodes, with its cost. The cost is the planar
/// length of the edge as a rank (see [`crate::cost`]); a fresh edge carries
/// the placeholder rank until the length pass fills it.
#[derive(Clone, Copy, PartialEq, Eq, Structural, Debug)]
pub struct Edge {
    pub source_osm: OsmNodeId,
    pub dest_osm: OsmNodeId,
    pub length: u64,
}

impl Edge {
    pub fn new(source_osm: OsmNodeId, dest_osm: OsmNodeId) -> (r: Edge)
        ensures
            r == (Edge { source_osm, dest_osm, length: RANK_UNSET }),
    {
        Edge { source_osm, dest_osm, length: RANK_UNSET }
    }
}

/// The error of building a loader from an incomplete configuration: names
/// the missing field.
#[derive(Debug)]
pub struct LoaderBuildError {
    source: String,
}

impl LoaderBuildError {
    /// The name of the missing field.
    pub closed spec fn spec_source(&self) -> Seq<char> {
        self.source@
    }

    pub fn new(source: String) -> (r: LoaderBuildError)
        ensures
            r.spec_source() == source@,
    {
        LoaderBuildError { source }
    }

    /// A readable account of the error.
    pub fn message(&self) -> (r: String)
        ensures
            r@ == "Missing required field "@ + self.spec_source(),
    {
        let mut r = "Missing required field ".to_owned();
        r.append(self.source.as_str());
        r
    }
}

/// The metric index: the stable slot of each named metric in an edge's cost
/// vector, assigned once when a loader is configured. Held as a list of
/// pairs; a later pair wins over an earlier one with the same name.
pub struct MetricIndices {
    entries: Vec<(String, usize)>,
}

/// The mapping that a list of name/slot pairs denotes; a later pair wins
/// over an earlier one with the same name.
pub closed spec fn map_of_entries(s: Seq<(String, usize)>) -> Map<Seq<char>, usize>
    decreases s.len(),
{
    if s.len() == 0 {
        Map::empty()
    } else {
        map_of_entries(s.drop_last()).insert(s.last().0@, s.last().1)
    }
}

/// Entries at or after position `i` never bind `k`; the binding of `k` is
/// then settled by the prefix before `i`.
proof fn lemma_map_of_entries_prefix(s: Seq<(String, usize)>, i: int, k: Seq<char>)
    requires
        0 <= i <= s.len(),
        forall|j: int| i <= j < s.len() ==> s[j].0@ != k,
    ensures
        map_of_entries(s).contains_key(k) <==> map_of_entries(s.take(i)).contains_key(k),
        map_of_entries(s).contains_key(k) ==> map_of_entries(s)[k] == map_of_entries(s.take(i))[k],
    decreases s.len() - i,
{
    if i == s.len() {
        assert(s.take(i) =~= s);
    } else {
        let shorter = s.drop_last();
        assert(shorter == s.take(s.len() - 1));
        assert(forall|j: int| i <= j < shorter.len() ==> shorter[j].0@ != k);
        lemma_map_of_entries_prefix(shorter, i, k);
        assert(shorter.take(i) =~= s.take(i));
        assert(s.last().0@ != k);
    }
}

impl View for MetricIndices {
    type V = Map<Seq<char>, usize>;

    closed spec fn view(&self) -> Map<Seq<char>, usize> {
        map_of_entries(self.entries@)
    }
}

impl MetricIndices {
    /// An empty index.
    pub fn new() -> (r: MetricIndices)
        ensures
            r@ == Map::<Seq<char>, usize>::empty(),
    {
        MetricIndices { entries: Vec::new() }
    }

    /// Assigns `slot` to the metric called `name`, shadowing any earlier
    /// assignment under that name.
    pub fn insert(&mut self, name: String, slot: usize)
        ensures
            final(self)@ == old(self)@.insert(name@, slot),
    {
        self.entries.push((name, slot));
        proof {
            assert(self.entries@.drop_last() == old(self).entries@);
        }
    }

    /// The slot of the metric called `name`, when one is assigned.
    pub fn get(&self, name: &str) -> (r: Option<usize>)
        ensures
            match r {
                Some(slot) => self@.contains_key(name@) && slot == self@[name@],
                None => !self@.contains_key(name@),
            },
    {
        let ghost s = self.entries@;
        let mut i: usize = self.entries.len();
        while i > 0
            invariant
                i <= s.len(),
                s == self.entries@,
                forall|j: int| i <= j < s.len() ==> s[j].0@ != name@,
            decreases i,
        {
            i -= 1;
            if str_eq(self.entries[i].0.as_str(), name) {
                proof {
                    lemma_map_of_entries_prefix(s, i + 1, name@);
                    assert(s.take(i + 1).drop_last() =~= s.take(i as int));
                    assert(s.take(i + 1).last() == s[i as int]);
                }
                return Some(self.entries[i].1);
            }
        }
        proof {
            lemma_map_of_entries_prefix(s, 0, name@);
            assert(s.take(0) =~= Seq::<(String, usize)>::empty());
        }
        None
    }
}

/// The EPSG code of the geographic system the extracts use.
pub const SOURCE_CRS: u16 = 4326;

/// A way as read from the extract: the ordered node references and the tags.
pub struct Way {
    pub nodes: Vec<OsmNodeId>,
    pub tags: TagSet,
}

/// Whether a way's tags force one-way travel: an explicit `oneway` tag
/// decides; otherwise motorways, roundabouts and circular junctions are
/// one-way.
pub open spec fn one_way_of(m: Map<Seq<char>, Seq<char>>) -> bool {
    if m.contains_key("oneway"@) && (m["oneway"@] == "yes"@ || m["oneway"@] == "true"@) {
        true
    } else if m.contains_key("oneway"@) && (m["oneway"@] == "no"@ || m["oneway"@] == "false"@) {
        false
    } else {
        ||| tag_is(m, "highway"@, "motorway"@)
        ||| tag_is(m, "junction"@, "roundabout"@)
        ||| tag_is(m, "junction"@, "circular"@)
    }
}

/// The raw edges of one way segment: the forward edge, and the reverse one
/// when the way is not one-way; lengths are left at the placeholder rank.
pub open spec fn segment_edges(a: OsmNodeId, b: OsmNodeId, one_way: bool) -> Seq<Edge> {
    if one_way {
        seq![Edge { source_osm: a, dest_osm: b, length: RANK_UNSET }]
    } else {
        seq![
            Edge { source_osm: a, dest_osm: b, length: RANK_UNSET },
            Edge { source_osm: b, dest_osm: a, length: RANK_UNSET },
        ]
    }
}

/// The raw edges of a whole way: those of each consecutive node pair.
pub open spec fn way_edges(nodes: Seq<OsmNodeId>, one_way: bool) -> Seq<Edge>
    decreases nodes.len(),
{
    if nodes.len() <= 1 {
        Seq::empty()
    } else {
        way_edges(nodes.drop_last(), one_way) + segment_edges(
            nodes[nodes.len() - 2],
            nodes[nodes.len() - 1],
            one_way,
        )
    }
}

/// A way with at least one node yields one edge per segment, and one more
/// per segment when it is bidirectional; segments are one fewer than nodes.
pub proof fn lemma_way_edges_len(nodes: Seq<OsmNodeId>, one_way: bool)
    ensures
        way_edges(nodes, one_way).len() == if nodes.len() <= 1 {
            0int
        } else {
            (nodes.len() - 1) * (if one_way {
                1int
            } else {
                2int
            })
        },
    decreases nodes.len(),
{
    if nodes.len() > 1 {
        lemma_way_edges_len(nodes.drop_last(), one_way);
    }
}

/// The position of each node in the retained node list; a later node wins
/// over an earlier one with the same identifier.
pub open spec fn node_map(nodes: Seq<Node>) -> Map<OsmNodeId, usize>
    decreases nodes.len(),
{
    if nodes.len() == 0 {
        Map::empty()
    } else {
        node_map(nodes.drop_last()).insert(nodes.last().osm_id, (nodes.len() - 1) as usize)
    }
}

/// The node map points into the list, at a node with the looked-up
/// identifier, and holds every identifier in the list.
pub proof fn lemma_node_map(nodes: Seq<Node>)
    requires
        nodes.len() <= usize::MAX,
    ensures
        forall|id: OsmNodeId| #[trigger]
            node_map(nodes).contains_key(id) ==> node_map(nodes)[id] < nodes.len()
                && nodes[node_map(nodes)[id] as int].osm_id == id,
        forall|i: int|
            0 <= i < nodes.len() ==> node_map(nodes).contains_key(#[trigger] nodes[i].osm_id),
    decreases nodes.len(),
{
    if nodes.len() > 0 {
        lemma_node_map(nodes.drop_last());
        let m = node_map(nodes);
        assert forall|id: OsmNodeId| #[trigger]
            m.contains_key(id) implies m[id] < nodes.len() && nodes[m[id] as int].osm_id
            == id by {
            if id != nodes.last().osm_id {
                let pre = node_map(nodes.drop_last());
                assert(pre.contains_key(id));
                let v = pre[id];
                assert(v < nodes.drop_last().len() && nodes.drop_last()[v as int].osm_id == id);
                assert(m[id] == v);
                assert(nodes.drop_last()[v as int] == nodes[v as int]);
            }
        }
        assert forall|i: int|
            0 <= i < nodes.len() implies node_map(nodes).contains_key(
            #[trigger] nodes[i].osm_id,
        ) by {
            if i < nodes.len() - 1 {
                assert(nodes.drop_last()[i].osm_id == nodes[i].osm_id);
            }
        }
    }
}

/// Whether both endpoints of the edge survived the node pass.
pub open spec fn spec_edge_kept(e: Edge, m: Map<OsmNodeId, usize>) -> bool {
    m.contains_key(e.source_osm) && m.contains_key(e.dest_osm)
}

/// The edges whose endpoints both survived the node pass.
pub open spec fn spec_surviving(edges: Seq<Edge>, m: Map<OsmNodeId, usize>) -> Seq<Edge>
    decreases edges.len(),
{
    if edges.len() == 0 {
        Seq::empty()
    } else if spec_edge_kept(edges.last(), m) {
        spec_surviving(edges.drop_last(), m).push(edges.last())
    } else {
        spec_surviving(edges.drop_last(), m)
    }
}

/// The extraction engine: filters ways for one transport mode, builds the
/// edge list over the retained nodes, computes lengths and simplifies.
pub struct Loader<Filter: EdgeFilter> {
    pub pbf_path: String,
    pub edge_filter: Filter,
    pub filter_geometry: Option<BoundingRing>,
    pub source_crs: u16,
    pub target_crs: u16,
    pub reverse_edges: bool,
}

/// The loader's configuration, gathered field by field; `build` validates
/// it.
pub struct OsmLoaderBuilder<Filter: EdgeFilter> {
    pub pbf_path: Option<String>,
    pub edge_filter: Option<Filter>,
    pub filter_geometry: Option<BoundingRing>,
    pub target_crs: Option<u16>,
    pub reverse_edges: Option<bool>,
}

impl<Filter: EdgeFilter> Default for OsmLoaderBuilder<Filter> {
    /// A builder with no field set.
    fn default() -> (r: Self)
        ensures
            r.pbf_path is None,
            r.edge_filter is None,
            r.filter_geometry is None,
            r.target_crs is None,
            r.reverse_edges is None,
    {
        OsmLoaderBuilder {
            pbf_path: None,
            edge_filter: None,
            filter_geometry: None,
            target_crs: None,
            reverse_edges: None,
        }
    }
}

impl<Filter: EdgeFilter> OsmLoaderBuilder<Filter> {
    /// Sets the path of the extract to load.
    pub fn pbf_path(&mut self, value: String) -> (ret: &mut Self)
        ensures
            *ret == (OsmLoaderBuilder {
                pbf_path: Some(value),
                ..*old(self)
            }),
            *final(self) == *final(ret),
    {
        self.pbf_path = Some(value);
        self
    }

    /// Sets the path of the extract to load, from a string slice.
    pub fn pbf_path_from_str(&mut self, value: &str) -> (ret: &mut Self)
        ensures
            ret.pbf_path is Some && ret.pbf_path.unwrap()@ == value@,
            *ret == (OsmLoaderBuilder {
                pbf_path: ret.pbf_path,
                ..*old(self)
            }),
            *final(self) == *final(ret),
    {
        self.pbf_path = Some(value.to_owned());
        self
    }

    /// Sets the transport-mode filter.
    pub fn edge_filter(&mut self, value: Filter) -> (ret: &mut Self)
        ensures
            *ret == (OsmLoaderBuilder {
                edge_filter: Some(value),
                ..*old(self)
            }),
            *final(self) == *final(ret),
    {
        self.edge_filter = Some(value);
        self
    }

    /// Sets the bounding region that nodes must lie in.
    pub fn filter_geometry(&mut self, value: BoundingRing) -> (ret: &mut Self)
        ensures
            *ret == (OsmLoaderBuilder {
                filter_geometry: Some(value),
                ..*old(self)
            }),
            *final(self) == *final(ret),
    {
        self.filter_geometry = Some(value);
        self
    }

    /// Sets the planar system that lengths are measured in.
    pub fn target_crs(&mut self, value: u16) -> (ret: &mut Self)
        ensures
            *ret == (OsmLoaderBuilder {
                target_crs: Some(value),
                ..*old(self)
            }),
            *final(self) == *final(ret),
    {
        self.target_crs = Some(value);
        self
    }

    /// Sets whether every way is treated as bidirectional, overriding the
    /// one-way rules.
    pub fn reverse_edges(&mut self, value: bool) -> (ret: &mut Self)
        ensures
            *ret == (OsmLoaderBuilder {
                reverse_edges: Some(value),
                ..*old(self)
            }),
            *final(self) == *final(ret),
    {
        self.reverse_edges = Some(value);
        self
    }

    /// Validates the configuration: the target system, the path and the
    /// filter are required; the error names the first missing field.
    pub fn build(self) -> (r: Result<Loader<Filter>, LoaderBuildError>)
        ensures
            match r {
                Ok(l) => self.target_crs is Some && self.pbf_path is Some && self.edge_filter
                    is Some && l == (Loader {
                    pbf_path: self.pbf_path.unwrap(),
                    edge_filter: self.edge_filter.unwrap(),
                    filter_geometry: self.filter_geometry,
                    source_crs: SOURCE_CRS,
                    target_crs: self.target_crs.unwrap(),
                    reverse_edges: if self.reverse_edges is Some {
                        self.reverse_edges.unwrap()
                    } else {
                        false
                    },
                }),
                Err(e) => if self.target_crs is None {
                    e.spec_source() == "target_crs"@
                } else if self.pbf_path is None {
                    e.spec_source() == "pbf_path"@
                } else {
                    self.edge_filter is None && e.spec_source() == "edge_filter"@
                },
            },
    {
        let target_crs = match self.target_crs {
            Some(c) => c,
            None => {
                return Err(LoaderBuildError::new("target_crs".to_owned()));
            },
        };
        let pbf_path = match self.pbf_path {
            Some(p) => p,
            None => {
                return Err(LoaderBuildError::new("pbf_path".to_owned()));
            },
        };
        let edge_filter = match self.edge_filter {
            Some(f) => f,
            None => {
                return Err(LoaderBuildError::new("edge_filter".to_owned()));
            },
        };
        let reverse_edges = match self.reverse_edges {
            Some(b) => b,
            None => false,
        };
        Ok(Loader {
            pbf_path,
            edge_filter,
            filter_geometry: self.filter_geometry,
            source_crs: SOURCE_CRS,
            target_crs,
            reverse_edges,
        })
    }
}

impl<Filter: EdgeFilter> Loader<Filter> {
    /// The one-way verdict this configuration gives a way: never one-way
    /// when edges are forced bidirectional.
    pub open spec fn spec_one_way(&self, w: &Way) -> bool {
        !self.reverse_edges && one_way_of(w.tags@)
    }

    /// The raw edges this configuration takes from one way.
    pub open spec fn spec_way_edges(&self, w: &Way) -> Seq<Edge> {
        if Filter::spec_invalid(w.tags@) {
            Seq::empty()
        } else {
            way_edges(w.nodes@, self.spec_one_way(w))
        }
    }

    /// The raw edges this configuration takes from a list of ways.
    pub open spec fn spec_raw_edges(&self, ways: Seq<Way>) -> Seq<Edge>
        decreases ways.len(),
    {
        if ways.len() == 0 {
            Seq::empty()
        } else {
            self.spec_raw_edges(ways.drop_last()) + self.spec_way_edges(&ways.last())
        }
    }

    /// The node identifiers that accepted ways reference.
    pub open spec fn spec_referenced_ids(&self, ways: Seq<Way>) -> Set<OsmNodeId>
        decreases ways.len(),
    {
        if ways.len() == 0 {
            Set::empty()
        } else {
            self.spec_referenced_ids(ways.drop_last()) + (if Filter::spec_invalid(
                ways.last().tags@,
            ) {
                Set::empty()
            } else {
                ways.last().nodes@.to_set()
            })
        }
    }

    /// Whether a node is retained: it must be referenced by an accepted way
    /// and lie inside the bounding region, when one is configured.
    pub open spec fn spec_node_kept(&self, n: Node, ids: Set<OsmNodeId>) -> bool {
        ids.contains(n.osm_id) && match self.filter_geometry {
            Some(ring) => ring_contains_of(ring@, n.long, n.lat),
            None => true,
        }
    }

    /// The nodes retained by the node pass, in extract order.
    pub open spec fn spec_kept_nodes(&self, nodes: Seq<Node>, ids: Set<OsmNodeId>) -> Seq<Node>
        decreases nodes.len(),
    {
        if nodes.len() == 0 {
            Seq::empty()
        } else if self.spec_node_kept(nodes.last(), ids) {
            self.spec_kept_nodes(nodes.drop_last(), ids).push(nodes.last())
        } else {
            self.spec_kept_nodes(nodes.drop_last(), ids)
        }
    }

    /// One edge with its length computed: the planar distance between its
    /// endpoints, or nothing when a point cannot be reprojected.
    pub open spec fn spec_price_edge(&self, e: Edge, nodes: Seq<Node>) -> Option<Edge> {
        let m = node_map(nodes);
        let s = nodes[m[e.source_osm] as int];
        let d = nodes[m[e.dest_osm] as int];
        match planar_distance_of(s.lat, s.long, d.lat, d.long, self.source_crs, self.target_crs) {
            Some(len) => Some(Edge { source_osm: e.source_osm, dest_osm: e.dest_osm, length: len }),
            None => None,
        }
    }

    /// The edges with their lengths computed, or nothing as soon as one
    /// cannot be.
    pub open spec fn spec_priced(&self, edges: Seq<Edge>, nodes: Seq<Node>) -> Option<Seq<Edge>>
        decreases edges.len(),
    {
        if edges.len() == 0 {
            Some(Seq::empty())
        } else {
            match self.spec_priced(edges.drop_last(), nodes) {
                Some(pre) => match self.spec_price_edge(edges.last(), nodes) {
                    Some(e) => Some(pre.push(e)),
                    None => None,
                },
                None => None,
            }
        }
    }

    /// An edge that cannot be priced poisons the whole pricing pass.
    proof fn lemma_priced_poison(&self, edges: Seq<Edge>, nodes: Seq<Node>, i: int)
        requires
            0 <= i < edges.len(),
            self.spec_price_edge(edges[i], nodes) is None,
        ensures
            self.spec_priced(edges, nodes) is None,
        decreases edges.len(),
    {
        if i < edges.len() - 1 {
            assert(edges.drop_last()[i] == edges[i]);
            self.lemma_priced_poison(edges.drop_last(), nodes, i);
        }
    }

    /// Whether the way's tags force its edges to be one-directional.
    pub fn is_one_way(&self, way: &Way) -> (r: bool)
        ensures
            r == one_way_of(way.tags@),
    {
        match way.tags.get("oneway") {
            Some(v) => {
                if str_eq(v.as_str(), "yes") || str_eq(v.as_str(), "true") {
                    true
                } else if str_eq(v.as_str(), "no") || str_eq(v.as_str(), "false") {
                    false
                } else {
                    self.one_way_heuristic(way)
                }
            },
            None => self.one_way_heuristic(way),
        }
    }

    /// The fallback one-way rule: motorways, roundabouts and circular
    /// junctions.
    fn one_way_heuristic(&self, way: &Way) -> (r: bool)
        ensures
            r == (tag_is(way.tags@, "highway"@, "motorway"@) || tag_is(
                way.tags@,
                "junction"@,
                "roundabout"@,
            ) || tag_is(way.tags@, "junction"@, "circular"@)),
    {
        way.tags.contains_pair("highway", "motorway") || way.tags.contains_pair(
            "junction",
            "roundabout",
        ) || way.tags.contains_pair("junction", "circular")
    }

    /// The raw edges of one way: nothing when the filter rejects it, else
    /// one edge per consecutive node pair and the reverse edges when the
    /// way is bidirectional. The count is the number of segments, doubled
    /// for a bidirectional way.
    pub fn process_way(&self, w: &Way) -> (edges: Vec<Edge>)
        ensures
            edges@ == self.spec_way_edges(w),
            edges@.len() == (if Filter::spec_invalid(w.tags@) || w.nodes@.len() <= 1 {
                0int
            } else {
                (w.nodes@.len() - 1) * (if self.spec_one_way(w) {
                    1int
                } else {
                    2int
                })
            }),
    {
        proof {
            if !Filter::spec_invalid(w.tags@) {
                lemma_way_edges_len(w.nodes@, self.spec_one_way(w));
            }
        }
        let mut edges: Vec<Edge> = Vec::new();
        if self.edge_filter.is_invalid(&w.tags) {
            return edges;
        }
        let one_way: bool = if self.reverse_edges {
            false
        } else {
            self.is_one_way(w)
        };
        let n = w.nodes.len();
        if n == 0 {
            return edges;
        }
        let mut index: usize = 0;
        while index < n - 1
            invariant
                n == w.nodes@.len(),
                1 <= n,
                one_way == self.spec_one_way(w),
                0 <= index <= n - 1,
                edges@ == way_edges(w.nodes@.take(index + 1), one_way),
            decreases n - 1 - index,
        {
            let a = w.nodes[index];
            let b = w.nodes[index + 1];
            let ghost before = edges@;
            edges.push(Edge::new(a, b));
            if !one_way {
                edges.push(Edge::new(b, a));
            }
            proof {
                let t = w.nodes@.take(index + 2);
                assert(t.drop_last() =~= w.nodes@.take(index + 1));
                assert(t[t.len() - 2] == a && t[t.len() - 1] == b);
                assert(edges@ =~= before + segment_edges(a, b, one_way));
            }
            index += 1;
        }
        proof {
            assert(w.nodes@.take(n as int) =~= w.nodes@);
        }
        edges
    }

    /// Gathers the identifiers that accepted ways reference: the collection
    /// step between the two parse passes.
    pub fn collect_node_ids(&self, ways: &Vec<Way>) -> (r: HashSet<OsmNodeId>)
        ensures
            r@ == self.spec_referenced_ids(ways@),
    {
        broadcast use vstd::std_specs::hash::group_hash_axioms;
        broadcast use vstd::seq::Seq::lemma_push_to_set_commute;
        broadcast use vstd::set::group_set_axioms;

        let mut ids: HashSet<OsmNodeId> = HashSet::new();
        let mut i: usize = 0;
        while i < ways.len()
            invariant
                0 <= i <= ways@.len(),
                ids@ == self.spec_referenced_ids(ways@.take(i as int)),
            decreases ways@.len() - i,
        {
            let w = &ways[i];
            let ghost ids_before = ids@;
            if !self.edge_filter.is_invalid(&w.tags) {
                let mut k: usize = 0;
                while k < w.nodes.len()
                    invariant
                        0 <= k <= w.nodes@.len(),
                        w == &ways@[i as int],
                        0 <= i < ways@.len(),
                        ids@ == ids_before + w.nodes@.take(k as int).to_set(),
                    decreases w.nodes@.len() - k,
                {
                    ids.insert(w.nodes[k]);
                    proof {
                        assert(w.nodes@.take(k + 1) =~= w.nodes@.take(k as int).push(
                            w.nodes@[k as int],
                        ));
                        w.nodes@.take(k as int).lemma_push_to_set_commute(w.nodes@[k as int]);
                        assert(ids_before + w.nodes@.take(k + 1).to_set() =~= (ids_before
                            + w.nodes@.take(k as int).to_set()).insert(w.nodes@[k as int]));
                    }
                    k += 1;
                }
                proof {
                    assert(w.nodes@.take(w.nodes@.len() as int) =~= w.nodes@);
                }
            } else {
                proof {
                    assert(ids@ =~= ids_before + Set::<OsmNodeId>::empty());
                }
            }
            proof {
                assert(ways@.take(i + 1).drop_last() =~= ways@.take(i as int));
                assert(ways@.take(i + 1).last() == ways@[i as int]);
            }
            i += 1;
        }
        proof {
            assert(ways@.take(ways@.len() as int) =~= ways@);
        }
        ids
    }

    /// Computes every edge's length: the planar distance between its
    /// endpoints, found through the node map. Fails with a projection
    /// error as soon as one endpoint cannot be reprojected.
    pub fn rename_node_ids_and_calculate_node_metrics(
        &self,
        nodes: &Vec<Node>,
        edges: &Vec<Edge>,
    ) -> (r: Result<Vec<Edge>, MetricError>)
        requires
            forall|i: int|
                0 <= i < edges@.len() ==> spec_edge_kept(#[trigger] edges@[i], node_map(nodes@)),
        ensures
            match self.spec_priced(edges@, nodes@) {
                Some(p) => r is Ok && r.unwrap()@ == p,
                None => r == Err::<Vec<Edge>, MetricError>(MetricError::Projection),
            },
    {
        broadcast use vstd::std_specs::hash::group_hash_axioms;

        let mut map: HashMap<OsmNodeId, usize> = HashMap::new();
        let mut i: usize = 0;
        while i < nodes.len()
            invariant
                0 <= i <= nodes@.len(),
                map@ == node_map(nodes@.take(i as int)),
            decreases nodes@.len() - i,
        {
            map.insert(nodes[i].osm_id, i);
            proof {
                assert(nodes@.take(i + 1).drop_last() =~= nodes@.take(i as int));
                assert(nodes@.take(i + 1).last() == nodes@[i as int]);
            }
            i += 1;
        }
        proof {
            assert(nodes@.take(nodes@.len() as int) =~= nodes@);
            lemma_node_map(nodes@);
        }
        let metric = Distance_;
        let mut out: Vec<Edge> = Vec::new();
        let mut j: usize = 0;
        while j < edges.len()
            invariant
                0 <= j <= edges@.len(),
                map@ == node_map(nodes@),
                forall|k: int|
                    0 <= k < edges@.len() ==> spec_edge_kept(
                        #[trigger] edges@[k],
                        node_map(nodes@),
                    ),
                forall|id: OsmNodeId| #[trigger]
                    node_map(nodes@).contains_key(id) ==> node_map(nodes@)[id] < nodes@.len()
                        && nodes@[node_map(nodes@)[id] as int].osm_id == id,
                self.spec_priced(edges@.take(j as int), nodes@) == Some(out@),
            decreases edges@.len() - j,
        {
            let e = edges[j];
            let si = *map.get(&e.source_osm).unwrap();
            let di = *map.get(&e.dest_osm).unwrap();
            let ghost before = out@;
            match metric.calc(&nodes[si], &nodes[di], self.source_crs, self.target_crs) {
                Ok(len) => {
                    out.push(Edge { source_osm: e.source_osm, dest_osm: e.dest_osm, length: len });
                },
                Err(err) => {
                    proof {
                        self.lemma_priced_poison(edges@, nodes@, j as int);
                    }
                    return Err(err);
                },
            }
            proof {
                assert(edges@.take(j + 1).drop_last() =~= edges@.take(j as int));
                assert(edges@.take(j + 1).last() == edges@[j as int]);
            }
            j += 1;
        }
        proof {
            assert(edges@.take(edges@.len() as int) =~= edges@);
        }
        Ok(out)
    }

    /// Sorts the edges by source, destination and cost, then removes exact
    /// duplicates.
    pub fn delete_duplicate_edges(&self, edges: &mut Vec<Edge>)
        ensures
            final(edges)@ == dedup_edges_spec(sort_edges_spec(old(edges)@)),
    {
        sort_edges(edges);
        dedup_edges(edges);
    }

    /// Removes every edge whose immediate predecessor joins the same
    /// endpoints with a cost at or below its own.
    pub fn delete_dominated_edges(&self, edges: Vec<Edge>) -> (r: Vec<Edge>)
        ensures
            r@ == prune_dominated_spec(edges@),
    {
        prune_dominated(edges)
    }

    /// Builds the graph from the extract's ways and nodes: filters ways,
    /// emits raw edges, retains the referenced nodes inside the bounding
    /// region, drops edges whose endpoints were not retained, computes
    /// planar lengths, and removes duplicate and dominated edges.
    pub fn load_graph(&self, ways: &Vec<Way>, nodes: &Vec<Node>) -> (r: Result<
        (Vec<Node>, Vec<Edge>),
        MetricError,
    >)
        ensures
            ({
                let ids = self.spec_referenced_ids(ways@);
                let kept = self.spec_kept_nodes(nodes@, ids);
                let raw = self.spec_raw_edges(ways@);
                let surv = spec_surviving(raw, node_map(kept));
                match self.spec_priced(surv, kept) {
                    Some(priced) => match r {
                        Ok(p) => p.0@ == kept && p.1@ == prune_dominated_spec(
                            dedup_edges_spec(sort_edges_spec(priced)),
                        ),
                        Err(_) => false,
                    },
                    None => r == Err::<(Vec<Node>, Vec<Edge>), MetricError>(
                        MetricError::Projection,
                    ),
                }
            }),
    {
        broadcast use vstd::std_specs::hash::group_hash_axioms;

        let mut raw_edges: Vec<Edge> = Vec::new();
        let mut i: usize = 0;
        while i < ways.len()
            invariant
                0 <= i <= ways@.len(),
                raw_edges@ == self.spec_raw_edges(ways@.take(i as int)),
            decreases ways@.len() - i,
        {
            let mut we = self.process_way(&ways[i]);
            raw_edges.append(&mut we);
            proof {
                assert(ways@.take(i + 1).drop_last() =~= ways@.take(i as int));
                assert(ways@.take(i + 1).last() == ways@[i as int]);
            }
            i += 1;
        }
        proof {
            assert(ways@.take(ways@.len() as int) =~= ways@);
        }
        let ids = self.collect_node_ids(ways);
        let ghost all_ids = self.spec_referenced_ids(ways@);

        let mut kept: Vec<Node> = Vec::new();
        let mut i: usize = 0;
        while i < nodes.len()
            invariant
                0 <= i <= nodes@.len(),
                ids@ == all_ids,
                kept@ == self.spec_kept_nodes(nodes@.take(i as int), all_ids),
            decreases nodes@.len() - i,
        {
            let n = nodes[i];
            let in_region = match &self.filter_geometry {
                Some(ring) => ring_contains(ring, n.long, n.lat),
                None => true,
            };
            if ids.contains(&n.osm_id) && in_region {
                kept.push(n);
            }
            proof {
                assert(nodes@.take(i + 1).drop_last() =~= nodes@.take(i as int));
                assert(nodes@.take(i + 1).last() == nodes@[i as int]);
            }
            i += 1;
        }
        proof {
            assert(nodes@.take(nodes@.len() as int) =~= nodes@);
        }

        let mut map: HashMap<OsmNodeId, usize> = HashMap::new();
        let mut i: usize = 0;
        while i < kept.len()
            invariant
                0 <= i <= kept@.len(),
                map@ == node_map(kept@.take(i as int)),
            decreases kept@.len() - i,
        {
            map.insert(kept[i].osm_id, i);
            proof {
                assert(kept@.take(i + 1).drop_last() =~= kept@.take(i as int));
                assert(kept@.take(i + 1).last() == kept@[i as int]);
            }
            i += 1;
        }
        proof {
            assert(kept@.take(kept@.len() as int) =~= kept@);
        }

        let mut surv: Vec<Edge> = Vec::new();
        let mut i: usize = 0;
        while i < raw_edges.len()
            invariant
                0 <= i <= raw_edges@.len(),
                map@ == node_map(kept@),
                surv@ == spec_surviving(raw_edges@.take(i as int), node_map(kept@)),
                forall|k: int|
                    0 <= k < surv@.len() ==> spec_edge_kept(#[trigger] surv@[k], node_map(kept@)),
            decreases raw_edges@.len() - i,
        {
            let e = raw_edges[i];
            if map.contains_key(&e.source_osm) && map.contains_key(&e.dest_osm) {
                surv.push(e);
            }
            proof {
                assert(raw_edges@.take(i + 1).drop_last() =~= raw_edges@.take(i as int));
                assert(raw_edges@.take(i + 1).last() == raw_edges@[i as int]);
            }
            i += 1;
        }
        proof {
            assert(raw_edges@.take(raw_edges@.len() as int) =~= raw_edges@);
        }

        let priced = match self.rename_node_ids_and_calculate_node_metrics(&kept, &surv) {
            Ok(p) => p,
            Err(err) => {
                return Err(err);
            },
        };
        let mut final_edges = priced;
        self.delete_duplicate_edges(&mut final_edges);
        let final_edges = self.delete_dominated_edges(final_edges);
        Ok((kept, final_edges))
    }
}

} // verus!
