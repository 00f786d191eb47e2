//! The point set: interleaved coordinates with their bounding box.

use vstd::prelude::*;
use crate::scalar::{is_finite, less, rank, same, eq, finite, lt, LARGEST_BITS, SMALLEST_BITS};

verus! {

/// A reduction as it arrives: one array per axis, point `i` at `(x[i], y[i])`.
#[derive(Debug, Clone, PartialEq)]
pub struct ReductionResponse {
    pub x: Vec<u32>,
    pub y: Vec<u32>,
}

/// Coordinates for a reduction: `data` holds `x0, y0, x1, y1, ...`, and the
/// four bounds enclose every finite coordinate.
#[derive(Debug, Clone, PartialEq)]
pub struct ReductionViewData {
    pub num_point: usize,
    pub data: Vec<u32>,
    pub max_x: u32,
    pub max_y: u32,
    pub min_x: u32,
    pub min_y: u32,
}

/// What a pair of bounds spans on one axis.
#[derive(Debug, Clone, Copy, PartialEq, Eq, Structural)]
pub enum Extent {
    /// The bounds are not those of any point: nothing to fit to.
    Unset,
    /// All points share one coordinate: the extent is zero, and a fit has
    /// to put a smallest extent in its place.
    Flat,
    /// The upper bound lies above the lower one.
    Span,
}

/// The extent between a lower and an upper bound.
pub open spec fn extent_of(lo: u32, hi: u32) -> Extent {
    if less(lo, hi) {
        Extent::Span
    } else if same(lo, hi) {
        Extent::Flat
    } else {
        Extent::Unset
    }
}

/// Classifies the extent between a lower and an upper bound.
pub fn extent_between(lo: u32, hi: u32) -> (e: Extent)
    ensures
        e == extent_of(lo, hi),
{
    if lt(lo, hi) {
        Extent::Span
    } else if eq(lo, hi) {
        Extent::Flat
    } else {
        Extent::Unset
    }
}

/// Some value of the column is finite.
pub open spec fn has_finite(col: Seq<u32>) -> bool {
    exists|i: int| 0 <= i < col.len() && is_finite(#[trigger] col[i])
}

/// `m` is the least finite value of the column, or the largest finite number
/// when the column has no finite value.
pub open spec fn is_lower_bound(col: Seq<u32>, m: u32) -> bool {
    &&& is_finite(m)
    &&& forall|i: int| 0 <= i < col.len() && is_finite(#[trigger] col[i]) ==> !less(col[i], m)
    &&& if has_finite(col) {
        exists|i: int| 0 <= i < col.len() && #[trigger] col[i] == m
    } else {
        m == LARGEST_BITS
    }
}

/// `m` is the greatest finite value of the column, or the smallest finite
/// number when the column has no finite value.
pub open spec fn is_upper_bound(col: Seq<u32>, m: u32) -> bool {
    &&& is_finite(m)
    &&& forall|i: int| 0 <= i < col.len() && is_finite(#[trigger] col[i]) ==> !less(m, col[i])
    &&& if has_finite(col) {
        exists|i: int| 0 <= i < col.len() && #[trigger] col[i] == m
    } else {
        m == SMALLEST_BITS
    }
}

/// The least finite value of a column; the largest finite number if there is none.
pub fn lower_bound(col: &Vec<u32>) -> (m: u32)
    ensures
        is_lower_bound(col@, m),
{
    let mut m: u32 = LARGEST_BITS;
    let ghost mut seen: bool = false;
    let mut i: usize = 0;
    while i < col.len()
        invariant
            i <= col.len(),
            is_finite(m),
            seen == has_finite(col@.take(i as int)),
            forall|j: int| 0 <= j < i && is_finite(#[trigger] col@[j]) ==> !less(col@[j], m),
            seen ==> exists|j: int| 0 <= j < i && #[trigger] col@[j] == m,
            !seen ==> m == LARGEST_BITS,
        decreases col.len() - i,
    {
        let v: u32 = col[i];
        proof {
            let before = col@.take(i as int);
            let after = col@.take(i + 1);
            assert(after[i as int] == v);
            assert(forall|j: int| 0 <= j < i ==> before[j] == after[j]);
            if is_finite(v) {
                assert(has_finite(after));
            } else if has_finite(before) {
                let j = choose|j: int| 0 <= j < before.len() && is_finite(#[trigger] before[j]);
                assert(is_finite(after[j]));
            } else if has_finite(after) {
                let j = choose|j: int| 0 <= j < after.len() && is_finite(#[trigger] after[j]);
                assert(is_finite(before[j]));
            }
        }
        if finite(v) {
            if lt(v, m) {
                m = v;
            }
            proof {
                seen = true;
            }
        }
        i += 1;
    }
    proof {
        assert(col@.take(i as int) =~= col@);
    }
    m
}

/// The greatest finite value of a column; the smallest finite number if there is none.
pub fn upper_bound(col: &Vec<u32>) -> (m: u32)
    ensures
        is_upper_bound(col@, m),
{
    let mut m: u32 = SMALLEST_BITS;
    let ghost mut seen: bool = false;
    let mut i: usize = 0;
    while i < col.len()
        invariant
            i <= col.len(),
            is_finite(m),
            seen == has_finite(col@.take(i as int)),
            forall|j: int| 0 <= j < i && is_finite(#[trigger] col@[j]) ==> !less(m, col@[j]),
            seen ==> exists|j: int| 0 <= j < i && #[trigger] col@[j] == m,
            !seen ==> m == SMALLEST_BITS,
        decreases col.len() - i,
    {
        let v: u32 = col[i];
        proof {
            let before = col@.take(i as int);
            let after = col@.take(i + 1);
            assert(after[i as int] == v);
            assert(forall|j: int| 0 <= j < i ==> before[j] == after[j]);
            if is_finite(v) {
                assert(has_finite(after));
            } else if has_finite(before) {
                let j = choose|j: int| 0 <= j < before.len() && is_finite(#[trigger] before[j]);
                assert(is_finite(after[j]));
            } else if has_finite(after) {
                let j = choose|j: int| 0 <= j < after.len() && is_finite(#[trigger] after[j]);
                assert(is_finite(before[j]));
            }
        }
        if finite(v) {
            if lt(m, v) {
                m = v;
            }
            proof {
                seen = true;
            }
        }
        i += 1;
    }
    proof {
        assert(col@.take(i as int) =~= col@);
    }
    m
}

/// The interleaving of two columns of equal length: `x0, y0, x1, y1, ...`.
pub open spec fn interleaved(x: Seq<u32>, y: Seq<u32>) -> Seq<u32> {
    Seq::new(2 * x.len(), |k: int| if k % 2 == 0 { x[k / 2] } else { y[k / 2] })
}

impl ReductionViewData {
    /// The buffer holds two coordinates for each point.
    pub open spec fn wf(&self) -> bool {
        self.data@.len() == 2 * self.num_point
    }

    /// The x coordinates, one per point.
    pub open spec fn xs(&self) -> Seq<u32> {
        Seq::new(self.num_point as nat, |i: int| self.data@[2 * i])
    }

    /// The y coordinates, one per point.
    pub open spec fn ys(&self) -> Seq<u32> {
        Seq::new(self.num_point as nat, |i: int| self.data@[2 * i + 1])
    }

    /// The four bounds are exactly the extremes of the finite coordinates, or
    /// the sentinels on an axis that has none.
    pub open spec fn bounds_exact(&self) -> bool {
        &&& is_lower_bound(self.xs(), self.min_x)
        &&& is_upper_bound(self.xs(), self.max_x)
        &&& is_lower_bound(self.ys(), self.min_y)
        &&& is_upper_bound(self.ys(), self.max_y)
    }

    /// The bounds describe a box: on both axes the lower bound does not
    /// exceed the upper one. The sentinels of an empty set do not.
    pub open spec fn fittable(&self) -> bool {
        !less(self.max_x, self.min_x) && !less(self.max_y, self.min_y)
    }

    /// The extent of the point set on x.
    pub fn extent_x(&self) -> (e: Extent)
        ensures
            e == extent_of(self.min_x, self.max_x),
    {
        extent_between(self.min_x, self.max_x)
    }

    /// The extent of the point set on y.
    pub fn extent_y(&self) -> (e: Extent)
        ensures
            e == extent_of(self.min_y, self.max_y),
    {
        extent_between(self.min_y, self.max_y)
    }

    /// Tells whether a camera may be fitted to the bounds.
    pub fn has_bounds(&self) -> (r: bool)
        ensures
            r == self.fittable(),
    {
        !lt(self.max_x, self.min_x) && !lt(self.max_y, self.min_y)
    }

    /// The x coordinate of point `i`.
    pub fn point_x(&self, i: usize) -> (v: u32)
        requires
            self.wf(),
            i < self.num_point,
        ensures
            v == self.xs()[i as int],
    {
        let len: usize = self.data.len();
        assert(2 * i + 1 < len);
        self.data[2 * i]
    }

    /// The y coordinate of point `i`.
    pub fn point_y(&self, i: usize) -> (v: u32)
        requires
            self.wf(),
            i < self.num_point,
        ensures
            v == self.ys()[i as int],
    {
        let len: usize = self.data.len();
        assert(2 * i + 1 < len);
        self.data[2 * i + 1]
    }
}

/// Convert from a reduction server response to the interleaved point set
/// with its bounding box.
pub fn convert_from_response_to_reduction_data(resp: ReductionResponse) -> (out: ReductionViewData)
    requires
        resp.x@.len() == resp.y@.len(),
        2 * resp.x@.len() <= usize::MAX,
    ensures
        out.wf(),
        out.num_point == resp.x@.len(),
        out.data@ == interleaved(resp.x@, resp.y@),
        out.xs() == resp.x@,
        out.ys() == resp.y@,
        out.bounds_exact(),
        is_lower_bound(resp.x@, out.min_x),
        is_upper_bound(resp.x@, out.max_x),
        is_lower_bound(resp.y@, out.min_y),
        is_upper_bound(resp.y@, out.max_y),
{
    let num_point: usize = resp.x.len();
    let min_x: u32 = lower_bound(&resp.x);
    let max_x: u32 = upper_bound(&resp.x);
    let min_y: u32 = lower_bound(&resp.y);
    let max_y: u32 = upper_bound(&resp.y);
    let mut data: Vec<u32> = Vec::with_capacity(num_point * 2);
    let mut i: usize = 0;
    while i < num_point
        invariant
            i <= num_point,
            num_point == resp.x@.len(),
            num_point == resp.y@.len(),
            data@.len() == 2 * i,
            forall|k: int| 0 <= k < i ==> data@[2 * k] == resp.x@[k] && data@[2 * k + 1] == resp.y@[k],
        decreases num_point - i,
    {
        data.push(resp.x[i]);
        data.push(resp.y[i]);
        i += 1;
    }
    let out = ReductionViewData { num_point, data, max_x, max_y, min_x, min_y };
    proof {
        assert(out.xs() =~= resp.x@);
        assert(out.ys() =~= resp.y@);
        assert forall|k: int| 0 <= k < 2 * num_point implies out.data@[k] == interleaved(resp.x@, resp.y@)[k] by {
            let h = k / 2;
            if k % 2 == 0 {
                assert(k == 2 * h);
            } else {
                assert(k == 2 * h + 1);
            }
        }
        assert(out.data@ =~= interleaved(resp.x@, resp.y@));
    }
    out
}

/// A point set whose bounds are exact describes a box exactly when some x
/// and some y coordinate is finite; in particular the empty set never does.
pub proof fn fittable_iff_finite_on_both_axes(d: ReductionViewData)
    requires
        d.wf(),
        d.bounds_exact(),
    ensures
        d.fittable() <==> has_finite(d.xs()) && has_finite(d.ys()),
        d.num_point == 0 ==> !d.fittable(),
        extent_of(d.min_x, d.max_x) == Extent::Unset <==> !has_finite(d.xs()),
        extent_of(d.min_y, d.max_y) == Extent::Unset <==> !has_finite(d.ys()),
{
    if has_finite(d.xs()) {
        let i = choose|i: int| 0 <= i < d.xs().len() && d.xs()[i] == d.min_x;
        assert(is_finite(d.xs()[i]));
    }
    if has_finite(d.ys()) {
        let i = choose|i: int| 0 <= i < d.ys().len() && d.ys()[i] == d.min_y;
        assert(is_finite(d.ys()[i]));
    }
}

/// Every finite coordinate of a point set with exact bounds lies within them.
pub proof fn bounds_enclose_points(d: ReductionViewData, i: int)
    requires
        d.wf(),
        d.bounds_exact(),
        0 <= i < d.num_point,
    ensures
        is_finite(d.xs()[i]) ==> rank(d.min_x) <= rank(d.xs()[i]) <= rank(d.max_x),
        is_finite(d.ys()[i]) ==> rank(d.min_y) <= rank(d.ys()[i]) <= rank(d.max_y),
{
}

} // verus!
