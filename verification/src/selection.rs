//! The drag rectangle and the scan that turns it into a selection.

use vstd::prelude::*;
use crate::points::ReductionViewData;
use crate::scalar::{less, lower_of, same, upper_of, eq, lt, max, min};

verus! {

/// A world-space rectangle given by two corners in no particular order:
/// `(x1, y1)` is where the drag began, `(x2, y2)` where the pointer is.
#[derive(Debug, Clone, Copy, PartialEq)]
pub struct Rectangle2D {
    pub x1: u32,
    pub x2: u32,
    pub y1: u32,
    pub y2: u32,
}

impl Rectangle2D {
    /// The extent on x as `(lower, upper)`, whichever corner came first.
    pub open spec fn spec_range_x(&self) -> (u32, u32) {
        (lower_of(self.x1, self.x2), upper_of(self.x1, self.x2))
    }

    /// The extent on y as `(lower, upper)`, whichever corner came first.
    pub open spec fn spec_range_y(&self) -> (u32, u32) {
        (lower_of(self.y1, self.y2), upper_of(self.y1, self.y2))
    }

    /// Both extents have zero width: the gesture is a click, not a drag.
    pub open spec fn is_point(&self) -> bool {
        same(self.spec_range_x().0, self.spec_range_x().1) && same(
            self.spec_range_y().0,
            self.spec_range_y().1,
        )
    }

    /// The point lies strictly inside the rectangle; its edges are outside.
    pub open spec fn spec_contains(&self, px: u32, py: u32) -> bool {
        &&& less(self.spec_range_x().0, px)
        &&& less(px, self.spec_range_x().1)
        &&& less(self.spec_range_y().0, py)
        &&& less(py, self.spec_range_y().1)
    }

    /// A rectangle of no extent anchored at one position.
    pub fn anchored(wx: u32, wy: u32) -> (r: Rectangle2D)
        ensures
            r == (Rectangle2D { x1: wx, x2: wx, y1: wy, y2: wy }),
    {
        Rectangle2D { x1: wx, x2: wx, y1: wy, y2: wy }
    }

    /// The extent on x as `(lower, upper)`.
    pub fn range_x(&self) -> (r: (u32, u32))
        ensures
            r == self.spec_range_x(),
    {
        (min(self.x1, self.x2), max(self.x1, self.x2))
    }

    /// The extent on y as `(lower, upper)`.
    pub fn range_y(&self) -> (r: (u32, u32))
        ensures
            r == self.spec_range_y(),
    {
        (min(self.y1, self.y2), max(self.y1, self.y2))
    }

    /// Tells whether the gesture that drew this rectangle was a click.
    pub fn is_click(&self) -> (r: bool)
        ensures
            r == self.is_point(),
    {
        let (x1, x2) = self.range_x();
        let (y1, y2) = self.range_y();
        eq(x1, x2) && eq(y1, y2)
    }

    /// Tells whether a point lies strictly inside the rectangle.
    pub fn contains(&self, px: u32, py: u32) -> (r: bool)
        ensures
            r == self.spec_contains(px, py),
    {
        let (x1, x2) = self.range_x();
        let (y1, y2) = self.range_y();
        lt(x1, px) && lt(px, x2) && lt(y1, py) && lt(py, y2)
    }
}

/// Point `i` of the set lies strictly inside the rectangle.
pub open spec fn point_selected(data: ReductionViewData, rect: Rectangle2D, i: int) -> bool {
    0 <= i < data.num_point && rect.spec_contains(data.xs()[i], data.ys()[i])
}

/// `ids` lists, in ascending order and once each, exactly the points of the
/// set that lie strictly inside the rectangle.
pub open spec fn is_selection(data: ReductionViewData, rect: Rectangle2D, ids: Seq<usize>) -> bool {
    &&& forall|k: int| 0 <= k < ids.len() ==> point_selected(data, rect, #[trigger] ids[k] as int)
    &&& forall|j: int, k: int| 0 <= j < k < ids.len() ==> ids[j] < ids[k]
    &&& forall|i: int| point_selected(data, rect, i) ==> exists|k: int| 0 <= k < ids.len() && #[trigger] ids[k] == i
}

/// Scans every point of the set and collects the ids of those strictly
/// inside the rectangle, in ascending order.
pub fn select_in_rectangle(data: &ReductionViewData, rect: &Rectangle2D) -> (ids: Vec<usize>)
    requires
        data.wf(),
    ensures
        is_selection(*data, *rect, ids@),
{
    let mut ids: Vec<usize> = Vec::new();
    let mut i: usize = 0;
    while i < data.num_point
        invariant
            data.wf(),
            i <= data.num_point,
            forall|k: int| 0 <= k < ids@.len() ==> point_selected(*data, *rect, #[trigger] ids@[k] as int),
            forall|k: int| 0 <= k < ids@.len() ==> #[trigger] ids@[k] < i,
            forall|j: int, k: int| 0 <= j < k < ids@.len() ==> ids@[j] < ids@[k],
            forall|p: int| 0 <= p < i && point_selected(*data, *rect, p) ==> exists|k: int| 0 <= k < ids@.len() && #[trigger] ids@[k] == p,
        decreases data.num_point - i,
    {
        let px: u32 = data.point_x(i);
        let py: u32 = data.point_y(i);
        if rect.contains(px, py) {
            let ghost before = ids@;
            ids.push(i);
            proof {
                assert(ids@[before.len() as int] == i);
                assert forall|p: int| 0 <= p < i + 1 && point_selected(*data, *rect, p) implies exists|k: int| 0 <= k < ids@.len() && #[trigger] ids@[k] == p by {
                    if p < i {
                        let k = choose|k: int| 0 <= k < before.len() && #[trigger] before[k] == p;
                        assert(ids@[k] == p);
                    }
                }
            }
        }
        i += 1;
    }
    ids
}

/// Two selections of the same rectangle over the same points are the same
/// list: the scan has exactly one right answer.
pub proof fn selection_is_unique(data: ReductionViewData, rect: Rectangle2D, a: Seq<usize>, b: Seq<usize>)
    requires
        is_selection(data, rect, a),
        is_selection(data, rect, b),
    ensures
        a == b,
    decreases a.len(),
{
    if a.len() == 0 {
        if b.len() > 0 {
            assert(point_selected(data, rect, b[0] as int));
        }
        assert(a =~= b);
    } else if b.len() == 0 {
        assert(point_selected(data, rect, a[0] as int));
    } else {
        ascending_prefix_agrees(data, rect, a, b, a.len() as int);
        ascending_prefix_agrees(data, rect, b, a, b.len() as int);
        assert(a =~= b);
    }
}

proof fn ascending_prefix_agrees(data: ReductionViewData, rect: Rectangle2D, a: Seq<usize>, b: Seq<usize>, n: int)
    requires
        is_selection(data, rect, a),
        is_selection(data, rect, b),
        0 <= n <= a.len(),
    ensures
        n <= b.len(),
        forall|k: int| 0 <= k < n ==> a[k] == b[k],
    decreases n,
{
    if n > 0 {
        ascending_prefix_agrees(data, rect, a, b, n - 1);
        let v = a[n - 1];
        assert(point_selected(data, rect, v as int));
        let kb = choose|k: int| 0 <= k < b.len() && #[trigger] b[k] == v;
        if kb < n - 1 {
            assert(a[kb] == b[kb]);
        } else if kb > n - 1 {
            let w = b[n - 1];
            assert(point_selected(data, rect, w as int));
            let ka = choose|k: int| 0 <= k < a.len() && #[trigger] a[k] == w;
            if ka < n - 1 {
                assert(a[ka] == b[ka]);
            } else if ka > n - 1 {
                assert(a[n - 1] < a[ka]);
                assert(b[n - 1] < b[kb]);
            }
        }
    }
}

/// A rectangle whose corners coincide is a click and contains no point.
pub proof fn click_selects_nothing(rect: Rectangle2D, px: u32, py: u32)
    requires
        same(rect.x1, rect.x2),
        same(rect.y1, rect.y2),
    ensures
        rect.is_point(),
        !rect.spec_contains(px, py),
{
}

} // verus!
