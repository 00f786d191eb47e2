//! The render buffer of a view: the points, coloured by the chosen attribute.

use vstd::prelude::*;
use crate::color::{
    colored_by_sparse_values, column_fits, encode_colors, encoded, numeric_values, sparse_touches_listed_only,
    validate_column, CountFileMetaColumnData,
};
use crate::coloring::ReductionColoringWithData;
use crate::points::ReductionViewData;
use crate::scalar::ZERO_BITS;
use crate::vertex::{blank_buffer, color_at, make_vertex_buffer, Color3};

verus! {

/// The column can be written for `n` points with this palette and these
/// normalised values: it fits the point set, a categorical column has a
/// palette to pick from, and a numeric one has a normalised value for each
/// of its values.
pub open spec fn encodable(col: CountFileMetaColumnData, n: int, palette: Seq<Color3>, reds: Seq<u32>) -> bool {
    &&& column_fits(col, n)
    &&& col is Categorical ==> palette.len() > 0
    &&& numeric_values(col) matches Some(values) ==> reds.len() == values.len()
}

/// Tells whether a column can be written for `n` points.
pub fn can_encode(col: &CountFileMetaColumnData, n: usize, palette: &Vec<Color3>, reds: &Vec<u32>) -> (r: bool)
    ensures
        r == encodable(*col, n as int, palette@, reds@),
{
    if validate_column(col, n).is_err() {
        return false;
    }
    match col {
        CountFileMetaColumnData::Categorical(_, _) => palette.len() > 0,
        CountFileMetaColumnData::Numeric(values) => reds.len() == values.len(),
        CountFileMetaColumnData::SparseNumeric(_, values) => reds.len() == values.len(),
    }
}

/// `buf` is the render buffer of the points under the coloring: the blank
/// buffer coloured by the column, where there is a column and it can be
/// written, and the blank buffer otherwise.
pub open spec fn is_render_buffer(
    data: ReductionViewData,
    coloring: ReductionColoringWithData,
    palette: Seq<Color3>,
    reds: Seq<u32>,
    buf: Seq<u32>,
) -> bool {
    match coloring.spec_column() {
        Some(col) => if encodable(col, data.num_point as int, palette, reds) {
            encoded(blank_buffer(data), col, palette, reds, buf)
        } else {
            buf == blank_buffer(data)
        },
        None => buf == blank_buffer(data),
    }
}

/// Builds the render buffer of a point set under a coloring. `reds` holds
/// the values of a numeric column divided by its normalizer. Without a
/// coloring, while its data is on the way, or with a column that does not
/// fit, every point is black.
pub fn render_buffer(
    data: &ReductionViewData,
    coloring: &ReductionColoringWithData,
    palette: &Vec<Color3>,
    reds: &Vec<u32>,
) -> (buf: Vec<u32>)
    requires
        data.wf(),
        6 * data.num_point <= usize::MAX,
    ensures
        is_render_buffer(*data, *coloring, palette@, reds@, buf@),
        buf@.len() == 6 * data.num_point,
{
    let mut buf = make_vertex_buffer(data);
    match coloring.column() {
        Some(col) => {
            if can_encode(col, data.num_point, palette, reds) {
                encode_colors(&mut buf, col, palette, reds);
            }
        },
        None => {},
    }
    buf
}

/// Under a sparse column, a point that the column does not list is black.
pub proof fn unlisted_points_are_black(data: ReductionViewData, index: Seq<u32>, reds: Seq<u32>, buf: Seq<u32>, p: int)
    requires
        colored_by_sparse_values(blank_buffer(data), index, reds, index.len() as int, buf),
        0 <= p < data.num_point,
        !index.contains(p as u32),
    ensures
        color_at(buf, p) == (ZERO_BITS, ZERO_BITS, ZERO_BITS),
{
    sparse_touches_listed_only(blank_buffer(data), index, reds, buf, p);
}

} // verus!
