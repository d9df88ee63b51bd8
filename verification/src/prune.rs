//! Graph simplification: sorting, deduplication and dominance pruning of
//! the edge list.
use crate::pbf::Edge;
use vstd::multiset::Multiset;
use vstd::prelude::*;

verus! {

/// The sort order of edges: by source, then destination, then cost.
pub open spec fn edge_le(a: Edge, b: Edge) -> bool {
    ||| a.source_osm < b.source_osm
    ||| (a.source_osm == b.source_osm && a.dest_osm < b.dest_osm)
    ||| (a.source_osm == b.source_osm && a.dest_osm == b.dest_osm && a.length <= b.length)
}

/// The order on the endpoint pair alone.
pub open spec fn endpoints_le(a: Edge, b: Edge) -> bool {
    ||| a.source_osm < b.source_osm
    ||| (a.source_osm == b.source_osm && a.dest_osm <= b.dest_osm)
}

/// Whether the two edges join the same endpoints.
pub open spec fn same_endpoints(a: Edge, b: Edge) -> bool {
    a.source_osm == b.source_osm && a.dest_osm == b.dest_osm
}

/// The whole sequence is ordered by [`edge_le`].
pub open spec fn edges_sorted(s: Seq<Edge>) -> bool {
    forall|i: int, j: int| 0 <= i < j < s.len() ==> edge_le(#[trigger] s[i], #[trigger] s[j])
}

/// Whether the edges match [`edge_le`] in the executable world.
fn edge_le_exec(a: &Edge, b: &Edge) -> (r: bool)
    ensures
        r == edge_le(*a, *b),
{
    a.source_osm < b.source_osm || (a.source_osm == b.source_osm && (a.dest_osm < b.dest_osm || (
    a.dest_osm == b.dest_osm && a.length <= b.length)))
}

/// Inserts an edge into a sorted sequence, after every element at or below
/// it in the order.
pub open spec fn insert_sorted(s: Seq<Edge>, e: Edge) -> Seq<Edge>
    decreases s.len(),
{
    if s.len() == 0 {
        seq![e]
    } else if edge_le(s.last(), e) {
        s.push(e)
    } else {
        insert_sorted(s.drop_last(), e).push(s.last())
    }
}

/// The edges sorted by [`edge_le`], by repeated sorted insertion.
pub open spec fn sort_edges_spec(s: Seq<Edge>) -> Seq<Edge>
    decreases s.len(),
{
    if s.len() == 0 {
        Seq::empty()
    } else {
        insert_sorted(sort_edges_spec(s.drop_last()), s.last())
    }
}

/// Sorted insertion at the position the executable search finds: the place
/// before the first run of elements above `e`.
proof fn lemma_insert_sorted_at(s: Seq<Edge>, e: Edge, p: int)
    requires
        0 <= p <= s.len(),
        forall|j: int| p <= j < s.len() ==> !edge_le(#[trigger] s[j], e),
        p > 0 ==> edge_le(s[p - 1], e),
    ensures
        insert_sorted(s, e) == s.insert(p, e),
    decreases s.len(),
{
    if s.len() == 0 {
        assert(insert_sorted(s, e) =~= s.insert(0, e));
    } else if edge_le(s.last(), e) {
        assert(p == s.len());
        assert(s.insert(p, e) =~= s.push(e));
    } else {
        assert(p < s.len());
        lemma_insert_sorted_at(s.drop_last(), e, p);
        assert(insert_sorted(s.drop_last(), e) == s.drop_last().insert(p, e));
        assert(insert_sorted(s, e) =~= s.insert(p, e)) by {
            s.drop_last().insert_ensures(p, e);
            s.insert_ensures(p, e);
        }
    }
}

/// Sorted insertion into a sorted sequence keeps it sorted.
proof fn lemma_insert_sorted_sorted(s: Seq<Edge>, e: Edge)
    requires
        edges_sorted(s),
    ensures
        edges_sorted(insert_sorted(s, e)),
        insert_sorted(s, e).len() == s.len() + 1,
    decreases s.len(),
{
    if s.len() == 0 {
    } else if edge_le(s.last(), e) {
        assert forall|i: int, j: int|
            0 <= i < j < s.push(e).len() implies edge_le(#[trigger] s.push(e)[i], #[trigger] s.push(
            e,
        )[j]) by {
            if j < s.len() {
            } else {
                if i < s.len() - 1 {
                    assert(edge_le(s[i], s[s.len() - 1]));
                }
            }
        }
    } else {
        assert(edges_sorted(s.drop_last()));
        lemma_insert_sorted_sorted(s.drop_last(), e);
        let t = insert_sorted(s.drop_last(), e);
        assert forall|i: int, j: int|
            0 <= i < j < t.push(s.last()).len() implies edge_le(
            #[trigger] t.push(s.last())[i],
            #[trigger] t.push(s.last())[j],
        ) by {
            if j == t.len() {
                let x = t[i];
                assert(!edge_le(s.last(), e));
                assert(edge_le(e, s.last()));
                lemma_insert_sorted_membership(s.drop_last(), e, i);
            }
        }
    }
}

/// Every element of a sorted insertion is the inserted edge or one of the
/// originals.
proof fn lemma_insert_sorted_membership(s: Seq<Edge>, e: Edge, i: int)
    requires
        0 <= i < insert_sorted(s, e).len(),
    ensures
        insert_sorted(s, e)[i] == e || exists|j: int|
            0 <= j < s.len() && insert_sorted(s, e)[i] == s[j],
    decreases s.len(),
{
    if s.len() == 0 {
    } else if edge_le(s.last(), e) {
        if i < s.len() {
            assert(insert_sorted(s, e)[i] == s[i]);
        }
    } else {
        let t = insert_sorted(s.drop_last(), e);
        if i < t.len() {
            lemma_insert_sorted_membership(s.drop_last(), e, i);
            if t[i] != e {
                let j = choose|j: int| 0 <= j < s.drop_last().len() && t[i] == s.drop_last()[j];
                assert(insert_sorted(s, e)[i] == s[j]);
            }
        } else {
            assert(insert_sorted(s, e)[i] == s[s.len() - 1]);
        }
    }
}

/// Sorting by repeated sorted insertion sorts.
pub proof fn lemma_sort_edges_spec_sorted(s: Seq<Edge>)
    ensures
        edges_sorted(sort_edges_spec(s)),
        sort_edges_spec(s).len() == s.len(),
    decreases s.len(),
{
    if s.len() > 0 {
        lemma_sort_edges_spec_sorted(s.drop_last());
        lemma_insert_sorted_sorted(sort_edges_spec(s.drop_last()), s.last());
    }
}

/// Sorting keeps the edges: the sorted sequence holds the same edges with
/// the same multiplicities.
pub proof fn lemma_sort_edges_spec_multiset(s: Seq<Edge>)
    ensures
        sort_edges_spec(s).to_multiset() == s.to_multiset(),
    decreases s.len(),
{
    broadcast use vstd::seq_lib::group_to_multiset_ensures;

    if s.len() > 0 {
        lemma_sort_edges_spec_multiset(s.drop_last());
        lemma_insert_sorted_multiset(sort_edges_spec(s.drop_last()), s.last());
        assert(s.drop_last().push(s.last()) =~= s);
        assert(s.drop_last().push(s.last()).to_multiset() =~= s.drop_last().to_multiset().insert(
            s.last(),
        ));
    }
}

proof fn lemma_insert_sorted_multiset(s: Seq<Edge>, e: Edge)
    ensures
        insert_sorted(s, e).to_multiset() == s.to_multiset().insert(e),
    decreases s.len(),
{
    broadcast use {vstd::seq_lib::group_to_multiset_ensures, vstd::multiset::group_multiset_axioms};

    if s.len() == 0 {
        assert(seq![e] =~= Seq::<Edge>::empty().push(e));
        assert(Seq::<Edge>::empty().push(e).to_multiset() =~= Seq::<Edge>::empty().to_multiset()
            .insert(e));
        assert(Seq::<Edge>::empty().to_multiset() =~= Multiset::<Edge>::empty());
    } else if edge_le(s.last(), e) {
    } else {
        lemma_insert_sorted_multiset(s.drop_last(), e);
        let t = insert_sorted(s.drop_last(), e);
        assert(t.push(s.last()).to_multiset() =~= t.to_multiset().insert(s.last()));
        assert(s.drop_last().push(s.last()) =~= s);
        assert(s.drop_last().push(s.last()).to_multiset() =~= s.drop_last().to_multiset().insert(
            s.last(),
        ));
        assert(s.drop_last().to_multiset().insert(e).insert(s.last()) =~= s.drop_last().to_multiset(
        ).insert(s.last()).insert(e));
    }
}

/// Sorts the edges by source, destination and cost.
pub fn sort_edges(edges: &mut Vec<Edge>)
    ensures
        final(edges)@ == sort_edges_spec(old(edges)@),
{
    let ghost input = edges@;
    let mut out: Vec<Edge> = Vec::new();
    let mut i: usize = 0;
    while i < edges.len()
        invariant
            edges@ == input,
            0 <= i <= input.len(),
            out@ == sort_edges_spec(input.take(i as int)),
        decreases input.len() - i,
    {
        let e = edges[i];
        let ghost sorted_prefix = out@;
        proof {
            lemma_sort_edges_spec_sorted(input.take(i as int));
        }
        let mut p: usize = out.len();
        while p > 0 && !edge_le_exec(&out[p - 1], &e)
            invariant
                out@ == sorted_prefix,
                0 <= p <= out.len(),
                forall|j: int| p <= j < out@.len() ==> !edge_le(#[trigger] out@[j], e),
                edges@ == input,
                0 <= i < input.len(),
                e == input[i as int],
            decreases p,
        {
            p -= 1;
        }
        out.insert(p, e);
        proof {
            lemma_insert_sorted_at(sorted_prefix, e, p as int);
            assert(input.take(i + 1).drop_last() =~= input.take(i as int));
            assert(input.take(i + 1).last() == input[i as int]);
        }
        i += 1;
    }
    proof {
        assert(input.take(input.len() as int) =~= input);
    }
    *edges = out;
}

/// The edges with each one equal to its predecessor removed; on a sorted
/// sequence this removes exact duplicates.
pub open spec fn dedup_edges_spec(s: Seq<Edge>) -> Seq<Edge>
    decreases s.len(),
{
    if s.len() == 0 {
        Seq::empty()
    } else if s.len() >= 2 && s[s.len() - 2] == s.last() {
        dedup_edges_spec(s.drop_last())
    } else {
        dedup_edges_spec(s.drop_last()).push(s.last())
    }
}

/// Removes every edge that equals its predecessor.
pub fn dedup_edges(edges: &mut Vec<Edge>)
    ensures
        final(edges)@ == dedup_edges_spec(old(edges)@),
{
    let ghost input = edges@;
    let mut out: Vec<Edge> = Vec::new();
    let mut i: usize = 0;
    while i < edges.len()
        invariant
            edges@ == input,
            0 <= i <= input.len(),
            out@ == dedup_edges_spec(input.take(i as int)),
        decreases input.len() - i,
    {
        if i == 0 || !(edges[i] == edges[i - 1]) {
            let e = edges[i];
            out.push(e);
        }
        proof {
            assert(input.take(i + 1).drop_last() =~= input.take(i as int));
            assert(input.take(i + 1).last() == input[i as int]);
        }
        i += 1;
    }
    proof {
        assert(input.take(input.len() as int) =~= input);
    }
    *edges = out;
}

/// What deduplication keeps of a sorted sequence: the last element stays,
/// the result is sorted, and adjacent survivors differ.
proof fn lemma_dedup_shape(s: Seq<Edge>)
    requires
        edges_sorted(s),
    ensures
        s.len() == 0 ==> dedup_edges_spec(s).len() == 0,
        s.len() > 0 ==> dedup_edges_spec(s).len() > 0 && dedup_edges_spec(s).last() == s.last(),
        edges_sorted(dedup_edges_spec(s)),
        forall|i: int| #![trigger dedup_edges_spec(s)[i]]
            0 < i < dedup_edges_spec(s).len() ==> dedup_edges_spec(s)[i - 1]
                != dedup_edges_spec(s)[i],
    decreases s.len(),
{
    if s.len() > 0 {
        assert(edges_sorted(s.drop_last()));
        lemma_dedup_shape(s.drop_last());
        let pre = dedup_edges_spec(s.drop_last());
        if s.len() >= 2 && s[s.len() - 2] == s.last() {
            assert(s.drop_last().last() == s[s.len() - 2]);
        } else {
            assert(dedup_edges_spec(s) == pre.push(s.last()));
            assert forall|i: int, j: int|
                0 <= i < j < pre.push(s.last()).len() implies edge_le(
                #[trigger] pre.push(s.last())[i],
                #[trigger] pre.push(s.last())[j],
            ) by {
                if j == pre.len() && pre.len() > 0 {
                    assert(edge_le(pre[i], pre[pre.len() - 1]) || i == pre.len() - 1);
                    assert(pre.last() == s.drop_last().last());
                    assert(edge_le(s[s.len() - 2], s[s.len() - 1]) || s.len() == 1);
                }
            }
        }
    }
}

/// Of the edges surviving deduplication of a sorted sequence, no two share
/// the same source, destination and cost: the survivors are pairwise
/// distinct, and still sorted.
pub proof fn lemma_dedup_no_duplicates(s: Seq<Edge>)
    requires
        edges_sorted(s),
    ensures
        forall|i: int, j: int|
            0 <= i < j < dedup_edges_spec(s).len() ==> #[trigger] dedup_edges_spec(s)[i]
                != #[trigger] dedup_edges_spec(s)[j],
        edges_sorted(dedup_edges_spec(s)),
{
    lemma_dedup_shape(s);
    let d = dedup_edges_spec(s);
    assert forall|i: int, j: int| 0 <= i < j < d.len() implies #[trigger] d[i] != #[trigger] d[j] by {
        lemma_sorted_strict_chain(d, i, j);
    }
}

/// In a sorted sequence whose adjacent elements differ, an earlier element
/// is strictly below a later one.
proof fn lemma_sorted_strict_chain(s: Seq<Edge>, i: int, j: int)
    requires
        edges_sorted(s),
        forall|k: int| #![trigger s[k]] 0 < k < s.len() ==> s[k - 1] != s[k],
        0 <= i < j < s.len(),
    ensures
        s[i] != s[j],
        edge_le(s[i], s[j]),
    decreases j - i,
{
    if j == i + 1 {
        assert(s[j] != s[j - 1]);
    } else {
        lemma_sorted_strict_chain(s, i + 1, j);
        assert(s[i] != s[i + 1]);
        assert(edge_le(s[i], s[i + 1]));
        if s[i] == s[j] {
            assert(edge_le(s[i + 1], s[j]));
        }
    }
}

/// What simplification leaves of any edge list: after sorting and
/// deduplication no two edges share their source, destination and cost, and
/// after dominance pruning no two adjacent survivors join the same
/// endpoints with the earlier cost at or below the later.
pub proof fn lemma_simplification_properties(s: Seq<Edge>)
    ensures
        ({
            let deduped = dedup_edges_spec(sort_edges_spec(s));
            let pruned = prune_dominated_spec(deduped);
            &&& forall|i: int, j: int|
                0 <= i < j < deduped.len() ==> #[trigger] deduped[i] != #[trigger] deduped[j]
            &&& forall|i: int|
                0 < i < pruned.len() ==> !(same_endpoints(#[trigger] pruned[i - 1], pruned[i])
                    && pruned[i - 1].length <= pruned[i].length)
        }),
{
    lemma_sort_edges_spec_sorted(s);
    lemma_dedup_no_duplicates(sort_edges_spec(s));
    lemma_prune_no_adjacent_domination(dedup_edges_spec(sort_edges_spec(s)));
}

/// Whether position `i` of the sequence is dominated by its immediate
/// predecessor: both join the same endpoints and the predecessor's cost is
/// at or below its own.
pub open spec fn dominated(s: Seq<Edge>, i: int) -> bool {
    0 < i < s.len() && same_endpoints(s[i - 1], s[i]) && s[i - 1].length <= s[i].length
}

/// The edges left after dominance pruning: every edge dominated by its
/// immediate predecessor in the incoming order is removed.
pub open spec fn prune_dominated_spec(s: Seq<Edge>) -> Seq<Edge>
    decreases s.len(),
{
    if s.len() == 0 {
        Seq::empty()
    } else if dominated(s, s.len() - 1) {
        prune_dominated_spec(s.drop_last())
    } else {
        prune_dominated_spec(s.drop_last()).push(s.last())
    }
}

/// Removes every edge whose immediate predecessor joins the same endpoints
/// with a cost at or below its own.
pub fn prune_dominated(edges: Vec<Edge>) -> (r: Vec<Edge>)
    ensures
        r@ == prune_dominated_spec(edges@),
{
    let mut out: Vec<Edge> = Vec::new();
    let mut i: usize = 0;
    while i < edges.len()
        invariant
            0 <= i <= edges@.len(),
            out@ == prune_dominated_spec(edges@.take(i as int)),
        decreases edges@.len() - i,
    {
        let keep = i == 0 || !(edges[i - 1].source_osm == edges[i].source_osm && edges[i
            - 1].dest_osm == edges[i].dest_osm && edges[i - 1].length <= edges[i].length);
        if keep {
            let e = edges[i];
            out.push(e);
        }
        proof {
            assert(edges@.take(i + 1).drop_last() =~= edges@.take(i as int));
            assert(edges@.take(i + 1).last() == edges@[i as int]);
            assert(forall|k: int|
                0 <= k < i ==> edges@.take(i + 1)[k] == edges@.take(i as int)[k]);
        }
        i += 1;
    }
    proof {
        assert(edges@.take(edges@.len() as int) =~= edges@);
    }
    out
}

/// The shape of pruning a sorted sequence: the result is sorted, its
/// elements' endpoint pairs never exceed the input's last, and adjacent
/// survivors never join the same endpoints.
proof fn lemma_prune_shape(s: Seq<Edge>)
    requires
        edges_sorted(s),
    ensures
        edges_sorted(prune_dominated_spec(s)),
        prune_dominated_spec(s).len() > 0 ==> s.len() > 0 && endpoints_le(
            prune_dominated_spec(s).last(),
            s.last(),
        ),
        forall|i: int|
            0 < i < prune_dominated_spec(s).len() ==> !same_endpoints(
                #[trigger] prune_dominated_spec(s)[i - 1],
                prune_dominated_spec(s)[i],
            ),
    decreases s.len(),
{
    if s.len() > 0 {
        assert(edges_sorted(s.drop_last()));
        lemma_prune_shape(s.drop_last());
        let pre = prune_dominated_spec(s.drop_last());
        if dominated(s, s.len() - 1) {
            if pre.len() > 0 {
                assert(endpoints_le(pre.last(), s.drop_last().last()));
                assert(edge_le(s[s.len() - 2], s[s.len() - 1]));
            }
        } else {
            assert(prune_dominated_spec(s) == pre.push(s.last()));
            if pre.len() > 0 {
                assert(endpoints_le(pre.last(), s[s.len() - 2]) || s.len() == 1);
                // The new last survivor does not share endpoints with the
                // previous survivor: sharing them would squeeze the
                // predecessor into the same endpoint pair and make the last
                // element dominated.
                if s.len() >= 2 && same_endpoints(pre.last(), s.last()) {
                    assert(endpoints_le(pre.last(), s[s.len() - 2]));
                    assert(edge_le(s[s.len() - 2], s[s.len() - 1]));
                    assert(same_endpoints(s[s.len() - 2], s[s.len() - 1]));
                    assert(s[s.len() - 2].length <= s[s.len() - 1].length);
                    assert(dominated(s, s.len() - 1));
                    assert(false);
                }
                if s.len() == 1 {
                    assert(pre.len() == 0);
                }
            }
            assert forall|i: int, j: int|
                0 <= i < j < pre.push(s.last()).len() implies edge_le(
                #[trigger] pre.push(s.last())[i],
                #[trigger] pre.push(s.last())[j],
            ) by {
                if j == pre.len() && pre.len() > 0 {
                    assert(edge_le(pre[i], pre[pre.len() - 1]) || i == pre.len() - 1);
                    assert(edge_le(s[s.len() - 2], s[s.len() - 1]) || s.len() == 1);
                    lemma_prune_member(s.drop_last(), i);
                }
            }
        }
    }
}

/// Every pruning survivor is an element of the input.
proof fn lemma_prune_member(s: Seq<Edge>, i: int)
    requires
        0 <= i < prune_dominated_spec(s).len(),
    ensures
        exists|j: int| 0 <= j < s.len() && prune_dominated_spec(s)[i] == s[j],
    decreases s.len(),
{
    if s.len() > 0 {
        let pre = prune_dominated_spec(s.drop_last());
        if dominated(s, s.len() - 1) {
            lemma_prune_member(s.drop_last(), i);
            let j = choose|j: int| 0 <= j < s.drop_last().len() && pre[i] == s.drop_last()[j];
            assert(prune_dominated_spec(s)[i] == s[j]);
        } else {
            if i < pre.len() {
                lemma_prune_member(s.drop_last(), i);
                let j = choose|j: int| 0 <= j < s.drop_last().len() && pre[i] == s.drop_last()[j];
                assert(prune_dominated_spec(s)[i] == s[j]);
            } else {
                assert(prune_dominated_spec(s)[i] == s[s.len() - 1]);
            }
        }
    }
}

/// Of the edges surviving dominance pruning of a sorted sequence, no two
/// adjacent survivors join the same endpoints with the earlier cost at or
/// below the later: adjacent survivors never even share their endpoints.
pub proof fn lemma_prune_no_adjacent_domination(s: Seq<Edge>)
    requires
        edges_sorted(s),
    ensures
        forall|i: int|
            0 < i < prune_dominated_spec(s).len() ==> !(same_endpoints(
                #[trigger] prune_dominated_spec(s)[i - 1],
                prune_dominated_spec(s)[i],
            ) && prune_dominated_spec(s)[i - 1].length <= prune_dominated_spec(s)[i].length),
{
    lemma_prune_shape(s);
}

} // verus!
