//! The render buffer: six values per point, position then colour.

use vstd::prelude::*;
use crate::points::ReductionViewData;
use crate::scalar::ZERO_BITS;

verus! {

/// Values per point in the render buffer: x, y, z, then red, green, blue.
pub const VERTEX_SIZE: usize = 6;

/// An RGB colour, each channel a number in 0..1.
pub type Color3 = (u32, u32, u32);

/// The buffer holds a whole number of vertices.
pub open spec fn is_vertex_buffer(buf: Seq<u32>) -> bool {
    buf.len() % 6 == 0
}

/// How many vertices the buffer holds.
pub open spec fn vertex_count(buf: Seq<u32>) -> int {
    buf.len() as int / 6
}

/// The position of vertex `i`.
pub open spec fn position_at(buf: Seq<u32>, i: int) -> (u32, u32, u32) {
    (buf[6 * i], buf[6 * i + 1], buf[6 * i + 2])
}

/// The colour of vertex `i`.
pub open spec fn color_at(buf: Seq<u32>, i: int) -> Color3 {
    (buf[6 * i + 3], buf[6 * i + 4], buf[6 * i + 5])
}

/// `after` is `before` with every position kept.
pub open spec fn same_positions(before: Seq<u32>, after: Seq<u32>) -> bool {
    &&& after.len() == before.len()
    &&& forall|i: int| 0 <= i < vertex_count(before) ==> #[trigger] position_at(after, i) == position_at(before, i)
}

/// Two buffers of whole vertices with the same positions and the same
/// colours are the same buffer.
pub proof fn buffers_equal_by_vertices(a: Seq<u32>, b: Seq<u32>)
    requires
        is_vertex_buffer(a),
        same_positions(a, b),
        forall|i: int| 0 <= i < vertex_count(a) ==> #[trigger] color_at(b, i) == color_at(a, i),
    ensures
        a == b,
{
    assert forall|k: int| 0 <= k < a.len() implies a[k] == b[k] by {
        let i = k / 6;
        assert(0 <= i < vertex_count(a));
        assert(position_at(b, i) == position_at(a, i));
        assert(color_at(b, i) == color_at(a, i));
        assert(k == 6 * i + k % 6);
    }
    assert(a =~= b);
}

/// The render buffer of a point set before any colouring: each point at
/// its position, at depth zero, and black.
pub open spec fn blank_buffer(data: ReductionViewData) -> Seq<u32> {
    Seq::new(
        6 * data.num_point as nat,
        |k: int|
            if k % 6 == 0 {
                data.xs()[k / 6]
            } else if k % 6 == 1 {
                data.ys()[k / 6]
            } else {
                ZERO_BITS
            },
    )
}

/// Builds the render buffer of a point set: each point at depth zero and
/// coloured black.
pub fn make_vertex_buffer(data: &ReductionViewData) -> (buf: Vec<u32>)
    requires
        data.wf(),
        6 * data.num_point <= usize::MAX,
    ensures
        buf@ == blank_buffer(*data),
        buf@.len() == 6 * data.num_point,
        is_vertex_buffer(buf@),
        vertex_count(buf@) == data.num_point,
        forall|i: int| 0 <= i < data.num_point ==> #[trigger] position_at(buf@, i) == (data.xs()[i], data.ys()[i], ZERO_BITS),
        forall|i: int| 0 <= i < data.num_point ==> #[trigger] color_at(buf@, i) == (ZERO_BITS, ZERO_BITS, ZERO_BITS),
{
    let mut buf: Vec<u32> = Vec::with_capacity(data.num_point * VERTEX_SIZE);
    let mut i: usize = 0;
    while i < data.num_point
        invariant
            data.wf(),
            i <= data.num_point,
            buf@.len() == 6 * i,
            forall|j: int| 0 <= j < i ==> #[trigger] position_at(buf@, j) == (data.xs()[j], data.ys()[j], ZERO_BITS),
            forall|j: int| 0 <= j < i ==> #[trigger] color_at(buf@, j) == (ZERO_BITS, ZERO_BITS, ZERO_BITS),
        decreases data.num_point - i,
    {
        let ghost before = buf@;
        let px: u32 = data.point_x(i);
        let py: u32 = data.point_y(i);
        buf.push(px);
        buf.push(py);
        buf.push(ZERO_BITS);
        buf.push(ZERO_BITS);
        buf.push(ZERO_BITS);
        buf.push(ZERO_BITS);
        proof {
            assert forall|j: int| 0 <= j < i implies #[trigger] position_at(buf@, j) == (data.xs()[j], data.ys()[j], ZERO_BITS) by {
                assert(position_at(buf@, j) == position_at(before, j));
            }
            assert forall|j: int| 0 <= j < i implies #[trigger] color_at(buf@, j) == (ZERO_BITS, ZERO_BITS, ZERO_BITS) by {
                assert(color_at(buf@, j) == color_at(before, j));
            }
        }
        i += 1;
    }
    proof {
        assert forall|k: int| 0 <= k < buf@.len() implies buf@[k] == blank_buffer(*data)[k] by {
            let j = k / 6;
            assert(position_at(buf@, j) == (data.xs()[j], data.ys()[j], ZERO_BITS));
            assert(color_at(buf@, j) == (ZERO_BITS, ZERO_BITS, ZERO_BITS));
            assert(k == 6 * j + k % 6);
        }
        assert(buf@ =~= blank_buffer(*data));
    }
    buf
}

/// Overwrites the colour of one vertex and nothing else.
pub fn set_color(buf: &mut Vec<u32>, i: usize, c: Color3)
    requires
        is_vertex_buffer(old(buf)@),
        i < vertex_count(old(buf)@),
    ensures
        same_positions(old(buf)@, final(buf)@),
        color_at(final(buf)@, i as int) == c,
        forall|j: int| 0 <= j < vertex_count(old(buf)@) && j != i ==> #[trigger] color_at(final(buf)@, j) == color_at(old(buf)@, j),
{
    let len: usize = buf.len();
    assert(6 * i + 5 < len);
    let base: usize = VERTEX_SIZE * i;
    buf.set(base + 3, c.0);
    buf.set(base + 4, c.1);
    buf.set(base + 5, c.2);
}

} // verus!
