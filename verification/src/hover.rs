//! Choosing the hovered point among measured distances.

use vstd::prelude::*;
use crate::points::ReductionViewData;
use crate::scalar::{is_finite, is_nan, less, same, finite, lt, nan};

verus! {

/// A distance counts for hovering: it is a finite number and does not
/// exceed the search radius.
pub open spec fn within_reach(d: u32, max_radius: u32) -> bool {
    is_finite(d) && !is_nan(max_radius) && !less(max_radius, d)
}

/// `r` is the answer to a nearest-point query over `dists`, where
/// `dists[i]` is the distance of point `i` from the query position: the
/// point within reach at the least distance, the lowest id among equals,
/// and nothing when no point is within reach.
pub open spec fn is_nearest(dists: Seq<u32>, max_radius: u32, r: Option<usize>) -> bool {
    match r {
        None => forall|i: int| 0 <= i < dists.len() ==> !within_reach(#[trigger] dists[i], max_radius),
        Some(p) => {
            &&& p < dists.len()
            &&& within_reach(dists[p as int], max_radius)
            &&& forall|i: int| 0 <= i < dists.len() && within_reach(#[trigger] dists[i], max_radius) ==> !less(dists[i], dists[p as int])
            &&& forall|i: int| 0 <= i < p ==> !(within_reach(#[trigger] dists[i], max_radius) && same(dists[i], dists[p as int]))
        },
    }
}

/// Picks the nearest point within the search radius from the distances of
/// all points, preferring the lowest id among points equally near.
pub fn nearest_within(dists: &Vec<u32>, max_radius: u32) -> (r: Option<usize>)
    ensures
        is_nearest(dists@, max_radius, r),
{
    let mut best: Option<usize> = None;
    let mut i: usize = 0;
    while i < dists.len()
        invariant
            i <= dists@.len(),
            is_nearest(dists@.take(i as int), max_radius, best),
        decreases dists.len() - i,
    {
        let d: u32 = dists[i];
        let ghost before = dists@.take(i as int);
        let ghost after = dists@.take(i + 1);
        proof {
            assert(after[i as int] == d);
            assert(forall|j: int| 0 <= j < i ==> before[j] == after[j]);
        }
        if finite(d) && !nan(max_radius) && !lt(max_radius, d) {
            match best {
                None => {
                    best = Some(i);
                },
                Some(p) => {
                    assert(before[p as int] == after[p as int]);
                    if lt(d, dists[p]) {
                        best = Some(i);
                    }
                },
            }
        } else {
            proof {
                if let Some(p) = best {
                    assert(before[p as int] == after[p as int]);
                }
            }
        }
        i += 1;
    }
    proof {
        assert(dists@.take(i as int) =~= dists@);
    }
    best
}

/// The answer to a nearest-point query is determined by the distances and
/// the radius.
pub proof fn nearest_is_unique(dists: Seq<u32>, max_radius: u32, a: Option<usize>, b: Option<usize>)
    requires
        is_nearest(dists, max_radius, a),
        is_nearest(dists, max_radius, b),
    ensures
        a == b,
{
    match (a, b) {
        (Some(p), Some(q)) => {
            assert(!less(dists[p as int], dists[q as int]));
            assert(!less(dists[q as int], dists[p as int]));
            assert(same(dists[p as int], dists[q as int]));
        },
        (Some(p), None) => {
            assert(within_reach(dists[p as int], max_radius));
        },
        (None, Some(q)) => {
            assert(within_reach(dists[q as int], max_radius));
        },
        (None, None) => {},
    }
}

/// A query has no answer exactly when every point is farther than the
/// search radius, or at no measurable distance.
pub proof fn nearest_is_none_iff_out_of_reach(dists: Seq<u32>, max_radius: u32, r: Option<usize>)
    requires
        is_nearest(dists, max_radius, r),
    ensures
        r is None <==> forall|i: int| 0 <= i < dists.len() ==> !within_reach(#[trigger] dists[i], max_radius),
{
    if let Some(p) = r {
        assert(within_reach(dists[p as int], max_radius));
    }
}

/// An empty point set has no nearest point.
pub proof fn nearest_of_none(max_radius: u32, r: Option<usize>)
    requires
        is_nearest(Seq::<u32>::empty(), max_radius, r),
    ensures
        r is None,
{
}

/// Candidate `k` is the answer among the candidates `(ids[k], dists[k])`:
/// within reach, no candidate within reach is nearer, and none equally near
/// has a lower id.
pub open spec fn is_best_candidate(ids: Seq<usize>, dists: Seq<u32>, max_radius: u32, k: int) -> bool {
    &&& 0 <= k < ids.len()
    &&& within_reach(dists[k], max_radius)
    &&& forall|j: int| 0 <= j < ids.len() && within_reach(#[trigger] dists[j], max_radius) ==> {
        &&& !less(dists[j], dists[k])
        &&& same(dists[j], dists[k]) ==> ids[k] <= ids[j]
    }
}

/// `r` is the answer to a nearest-point query over candidates in any order:
/// the id of a best candidate, and nothing when no candidate is within reach.
pub open spec fn is_nearest_among(ids: Seq<usize>, dists: Seq<u32>, max_radius: u32, r: Option<usize>) -> bool {
    match r {
        None => forall|j: int| 0 <= j < ids.len() ==> !within_reach(#[trigger] dists[j], max_radius),
        Some(p) => exists|k: int| is_best_candidate(ids, dists, max_radius, k) && #[trigger] ids[k] == p,
    }
}

/// Picks the nearest point within the search radius among candidates
/// given by id and distance, preferring the lowest id among points
/// equally near. The candidates may come in any order.
pub fn nearest_among(ids: &Vec<usize>, dists: &Vec<u32>, max_radius: u32) -> (r: Option<usize>)
    requires
        ids@.len() == dists@.len(),
    ensures
        is_nearest_among(ids@, dists@, max_radius, r),
{
    let mut best: Option<usize> = None;
    let mut i: usize = 0;
    while i < ids.len()
        invariant
            i <= ids@.len(),
            ids@.len() == dists@.len(),
            best is None ==> forall|j: int| 0 <= j < i ==> !within_reach(#[trigger] dists@[j], max_radius),
            best matches Some(k) ==> {
                &&& k < i
                &&& within_reach(dists@[k as int], max_radius)
                &&& forall|j: int| 0 <= j < i && within_reach(#[trigger] dists@[j], max_radius) ==> {
                    &&& !less(dists@[j], dists@[k as int])
                    &&& same(dists@[j], dists@[k as int]) ==> ids@[k as int] <= ids@[j]
                }
            },
        decreases ids.len() - i,
    {
        let d: u32 = dists[i];
        if finite(d) && !nan(max_radius) && !lt(max_radius, d) {
            match best {
                None => {
                    best = Some(i);
                },
                Some(k) => {
                    if lt(d, dists[k]) || (!lt(dists[k], d) && ids[i] < ids[k]) {
                        best = Some(i);
                    }
                },
            }
        }
        i += 1;
    }
    match best {
        None => None,
        Some(k) => {
            assert(is_best_candidate(ids@, dists@, max_radius, k as int));
            Some(ids[k])
        },
    }
}

/// The answer among candidates is determined by the candidates and the
/// radius, whatever their order.
pub proof fn nearest_among_is_unique(ids: Seq<usize>, dists: Seq<u32>, max_radius: u32, a: Option<usize>, b: Option<usize>)
    requires
        is_nearest_among(ids, dists, max_radius, a),
        is_nearest_among(ids, dists, max_radius, b),
    ensures
        a == b,
{
    match (a, b) {
        (Some(p), Some(q)) => {
            let k = choose|k: int| is_best_candidate(ids, dists, max_radius, k) && #[trigger] ids[k] == p;
            let m = choose|m: int| is_best_candidate(ids, dists, max_radius, m) && #[trigger] ids[m] == q;
            assert(!less(dists[k], dists[m]));
            assert(!less(dists[m], dists[k]));
            assert(same(dists[k], dists[m]));
        },
        (Some(p), None) => {
            let k = choose|k: int| is_best_candidate(ids, dists, max_radius, k) && #[trigger] ids[k] == p;
            assert(within_reach(dists[k], max_radius));
        },
        (None, Some(q)) => {
            let m = choose|m: int| is_best_candidate(ids, dists, max_radius, m) && #[trigger] ids[m] == q;
            assert(within_reach(dists[m], max_radius));
        },
        (None, None) => {},
    }
}

/// Over candidates that list every point once in id order, the answer
/// among candidates is the answer over all points.
pub proof fn nearest_among_all_points(dists: Seq<u32>, max_radius: u32, r: Option<usize>)
    requires
        is_nearest_among(Seq::new(dists.len(), |i: int| i as usize), dists, max_radius, r),
        dists.len() <= usize::MAX,
    ensures
        is_nearest(dists, max_radius, r),
{
    let ids = Seq::new(dists.len(), |i: int| i as usize);
    if let Some(p) = r {
        let k = choose|k: int| is_best_candidate(ids, dists, max_radius, k) && #[trigger] ids[k] == p;
        assert(k == p);
        assert forall|i: int| 0 <= i < p implies !(within_reach(#[trigger] dists[i], max_radius) && same(dists[i], dists[p as int])) by {
            if within_reach(dists[i], max_radius) && same(dists[i], dists[p as int]) {
                assert(ids[k] <= ids[i]);
            }
        }
    }
}

/// Point `i` of the set can be indexed: both of its coordinates are finite.
pub open spec fn point_indexable(data: ReductionViewData, i: int) -> bool {
    0 <= i < data.num_point && is_finite(data.xs()[i]) && is_finite(data.ys()[i])
}

/// `ids` lists, in ascending order and once each, exactly the points of
/// the set that can be indexed.
pub open spec fn is_indexable_list(data: ReductionViewData, ids: Seq<usize>) -> bool {
    &&& forall|k: int| 0 <= k < ids.len() ==> point_indexable(data, #[trigger] ids[k] as int)
    &&& forall|j: int, k: int| 0 <= j < k < ids.len() ==> ids[j] < ids[k]
    &&& forall|i: int| point_indexable(data, i) ==> exists|k: int| 0 <= k < ids.len() && #[trigger] ids[k] == i
}

/// The points that a spatial index is to hold: those with two finite
/// coordinates, in ascending order. A point with a coordinate that is not
/// a number, or infinite, is left out and can never be hovered.
pub fn indexable_points(data: &ReductionViewData) -> (ids: Vec<usize>)
    requires
        data.wf(),
    ensures
        is_indexable_list(*data, ids@),
{
    let mut ids: Vec<usize> = Vec::new();
    let mut i: usize = 0;
    while i < data.num_point
        invariant
            data.wf(),
            i <= data.num_point,
            forall|k: int| 0 <= k < ids@.len() ==> point_indexable(*data, #[trigger] ids@[k] as int),
            forall|k: int| 0 <= k < ids@.len() ==> #[trigger] ids@[k] < i,
            forall|j: int, k: int| 0 <= j < k < ids@.len() ==> ids@[j] < ids@[k],
            forall|p: int| 0 <= p < i && point_indexable(*data, p) ==> exists|k: int| 0 <= k < ids@.len() && #[trigger] ids@[k] == p,
        decreases data.num_point - i,
    {
        let px: u32 = data.point_x(i);
        let py: u32 = data.point_y(i);
        if finite(px) && finite(py) {
            let ghost before = ids@;
            ids.push(i);
            proof {
                assert(ids@[before.len() as int] == i);
                assert forall|p: int| 0 <= p < i + 1 && point_indexable(*data, p) implies exists|k: int| 0 <= k < ids@.len() && #[trigger] ids@[k] == p by {
                    if p < i {
                        let k = choose|k: int| 0 <= k < before.len() && #[trigger] before[k] == p;
                        assert(ids@[k] == p);
                    }
                }
            }
        }
        i += 1;
    }
    ids
}

} // verus!
