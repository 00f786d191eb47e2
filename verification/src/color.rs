//! Turning an attribute column into vertex colours.

use vstd::prelude::*;
use crate::points::{has_finite, is_upper_bound, upper_bound};
use crate::scalar::{is_finite, less, same, lt, EPSILON_BITS, ONE_BITS, ZERO_BITS};
use crate::vertex::{color_at, is_vertex_buffer, same_positions, set_color, vertex_count, Color3};

verus! {

/// One attribute of the points, in one of three layouts.
#[derive(Debug, Clone, PartialEq)]
pub enum CountFileMetaColumnData {
    /// A category code per point, and the names of the categories.
    Categorical(Vec<u32>, Vec<String>),
    /// A value per point.
    Numeric(Vec<u32>),
    /// Point ids paired with values; every point not listed is zero.
    SparseNumeric(Vec<u32>, Vec<u32>),
}

/// Why a column does not fit a point set.
#[derive(Debug, Clone, Copy, PartialEq, Eq, Structural)]
pub enum ColumnError {
    /// A per-point column does not have one entry per point, or a sparse
    /// column does not pair every id with a value.
    LengthMismatch,
    /// A sparse column names a point that does not exist.
    IndexOutOfRange,
}

/// Every id of a sparse column names one of `n` points.
pub open spec fn indices_in_range(index: Seq<u32>, n: int) -> bool {
    forall|k: int| 0 <= k < index.len() ==> #[trigger] index[k] < n
}

/// The lengths of the column fit a set of `n` points.
pub open spec fn lengths_fit(col: CountFileMetaColumnData, n: int) -> bool {
    match col {
        CountFileMetaColumnData::Categorical(codes, _) => codes@.len() == n,
        CountFileMetaColumnData::Numeric(values) => values@.len() == n,
        CountFileMetaColumnData::SparseNumeric(index, values) => index@.len() == values@.len(),
    }
}

/// The column can colour a set of `n` points.
pub open spec fn column_fits(col: CountFileMetaColumnData, n: int) -> bool {
    &&& lengths_fit(col, n)
    &&& col matches CountFileMetaColumnData::SparseNumeric(index, _) ==> indices_in_range(index@, n)
}

/// Tells whether every id of a sparse column names one of `n` points.
pub fn check_indices(index: &Vec<u32>, n: usize) -> (r: bool)
    ensures
        r == indices_in_range(index@, n as int),
{
    let mut k: usize = 0;
    while k < index.len()
        invariant
            k <= index.len(),
            forall|j: int| 0 <= j < k ==> #[trigger] index@[j] < n,
        decreases index.len() - k,
    {
        if index[k] as usize >= n {
            return false;
        }
        k += 1;
    }
    true
}

/// Checks a column against the size of the point set it is to colour.
pub fn validate_column(col: &CountFileMetaColumnData, n: usize) -> (r: Result<(), ColumnError>)
    ensures
        r is Ok <==> column_fits(*col, n as int),
        r == Err::<(), ColumnError>(ColumnError::LengthMismatch) <==> !lengths_fit(*col, n as int),
        r == Err::<(), ColumnError>(ColumnError::IndexOutOfRange) <==> lengths_fit(*col, n as int) && !column_fits(*col, n as int),
{
    match col {
        CountFileMetaColumnData::Categorical(codes, _) => {
            if codes.len() == n {
                Ok(())
            } else {
                Err(ColumnError::LengthMismatch)
            }
        },
        CountFileMetaColumnData::Numeric(values) => {
            if values.len() == n {
                Ok(())
            } else {
                Err(ColumnError::LengthMismatch)
            }
        },
        CountFileMetaColumnData::SparseNumeric(index, values) => {
            if index.len() != values.len() {
                Err(ColumnError::LengthMismatch)
            } else if check_indices(index, n) {
                Ok(())
            } else {
                Err(ColumnError::IndexOutOfRange)
            }
        },
    }
}

/// The divisor for a column whose greatest finite value is `top`: one when
/// `top` is not above zero, the smallest divisor when `top` lies below it,
/// and `top` itself otherwise.
pub open spec fn safe_floor(top: u32) -> u32 {
    if !less(ZERO_BITS, top) {
        ONE_BITS
    } else if less(top, EPSILON_BITS) {
        EPSILON_BITS
    } else {
        top
    }
}

/// `m` is the divisor by which the column is normalised: its greatest
/// finite value, floored as `safe_floor` says. An empty column, and one
/// without a finite value, have no value above zero.
pub open spec fn is_safe_max(values: Seq<u32>, m: u32) -> bool {
    exists|top: u32| #[trigger] is_upper_bound(values, top) && m == safe_floor(top)
}

/// The divisor that normalises a numeric column into 0..1 without ever
/// dividing by zero: the greatest finite value, raised to the smallest
/// divisor if it lies below that, and one when no value is above zero or
/// the column is empty.
pub fn make_safe_max(values: &Vec<u32>) -> (m: u32)
    ensures
        is_safe_max(values@, m),
        is_finite(m),
        !less(m, EPSILON_BITS),
        forall|i: int| 0 <= i < values@.len() && is_finite(#[trigger] values@[i]) ==> !less(m, values@[i]),
{
    let top: u32 = upper_bound(values);
    let m: u32 = if !lt(ZERO_BITS, top) {
        ONE_BITS
    } else if lt(top, EPSILON_BITS) {
        EPSILON_BITS
    } else {
        top
    };
    assert(is_upper_bound(values@, top) && m == safe_floor(top));
    m
}

/// The divisor of a column is determined by its values.
pub proof fn safe_max_is_unique(values: Seq<u32>, a: u32, b: u32)
    requires
        is_safe_max(values, a),
        is_safe_max(values, b),
    ensures
        a == b,
{
    let ta = choose|top: u32| #[trigger] is_upper_bound(values, top) && a == safe_floor(top);
    let tb = choose|top: u32| #[trigger] is_upper_bound(values, top) && b == safe_floor(top);
    if has_finite(values) {
        let i = choose|i: int| 0 <= i < values.len() && #[trigger] values[i] == ta;
        let j = choose|j: int| 0 <= j < values.len() && #[trigger] values[j] == tb;
        assert(!less(ta, values[j]) && !less(tb, values[i]));
        assert(same(ta, tb));
    }
}

/// The palette entry for a category code: the palette wraps around.
pub open spec fn palette_color(palette: Seq<Color3>, code: u32) -> Color3 {
    palette[(code as int) % (palette.len() as int)]
}

/// `after` is `before` recoloured by category: vertex `i` takes the palette
/// entry of `codes[i]`; vertices beyond the codes and all positions are kept.
pub open spec fn colored_by_category(before: Seq<u32>, codes: Seq<u32>, palette: Seq<Color3>, after: Seq<u32>) -> bool {
    &&& same_positions(before, after)
    &&& forall|i: int| 0 <= i < vertex_count(before) ==> #[trigger] color_at(after, i) == if i < codes.len() {
        palette_color(palette, codes[i])
    } else {
        color_at(before, i)
    }
}

/// Colours the vertices by category code, wrapping around the palette.
pub fn color_by_category(buf: &mut Vec<u32>, codes: &Vec<u32>, palette: &Vec<Color3>)
    requires
        is_vertex_buffer(old(buf)@),
        codes@.len() <= vertex_count(old(buf)@),
        palette@.len() > 0,
    ensures
        colored_by_category(old(buf)@, codes@, palette@, final(buf)@),
{
    let mut i: usize = 0;
    while i < codes.len()
        invariant
            i <= codes@.len(),
            palette@.len() > 0,
            is_vertex_buffer(old(buf)@),
            codes@.len() <= vertex_count(old(buf)@),
            same_positions(old(buf)@, buf@),
            forall|j: int| 0 <= j < vertex_count(old(buf)@) ==> #[trigger] color_at(buf@, j) == if j < i {
                palette_color(palette@, codes@[j])
            } else {
                color_at(old(buf)@, j)
            },
        decreases codes.len() - i,
    {
        let slot: usize = codes[i] as usize % palette.len();
        let col: Color3 = palette[slot];
        set_color(buf, i, col);
        i += 1;
    }
}

/// `after` is `before` with the red channel of vertex `i` set to `reds[i]`
/// and its green and blue to zero; vertices beyond `reds` and all positions
/// are kept.
pub open spec fn colored_by_values(before: Seq<u32>, reds: Seq<u32>, after: Seq<u32>) -> bool {
    &&& same_positions(before, after)
    &&& forall|i: int| 0 <= i < vertex_count(before) ==> #[trigger] color_at(after, i) == if i < reds.len() {
        (reds[i], ZERO_BITS, ZERO_BITS)
    } else {
        color_at(before, i)
    }
}

/// Colours the vertices by a value per point, already normalised: the value
/// goes to the red channel alone.
pub fn color_by_values(buf: &mut Vec<u32>, reds: &Vec<u32>)
    requires
        is_vertex_buffer(old(buf)@),
        reds@.len() <= vertex_count(old(buf)@),
    ensures
        colored_by_values(old(buf)@, reds@, final(buf)@),
{
    let mut i: usize = 0;
    while i < reds.len()
        invariant
            i <= reds@.len(),
            is_vertex_buffer(old(buf)@),
            reds@.len() <= vertex_count(old(buf)@),
            same_positions(old(buf)@, buf@),
            forall|j: int| 0 <= j < vertex_count(old(buf)@) ==> #[trigger] color_at(buf@, j) == if j < i {
                (reds@[j], ZERO_BITS, ZERO_BITS)
            } else {
                color_at(old(buf)@, j)
            },
        decreases reds.len() - i,
    {
        set_color(buf, i, (reds[i], ZERO_BITS, ZERO_BITS));
        i += 1;
    }
}

/// Entry `k` is the last among the first `count` entries of `index` that
/// names point `p`.
pub open spec fn is_last_entry(index: Seq<u32>, count: int, p: int, k: int) -> bool {
    &&& 0 <= k < count
    &&& index[k] == p
    &&& forall|j: int| k < j < count ==> #[trigger] index[j] != p
}

/// `after` is `before` with, for each listed point, its red channel set to
/// the value of its last entry and green and blue to zero; points not
/// listed and all positions are kept.
pub open spec fn colored_by_sparse_values(before: Seq<u32>, index: Seq<u32>, reds: Seq<u32>, count: int, after: Seq<u32>) -> bool {
    &&& same_positions(before, after)
    &&& forall|p: int, k: int| 0 <= p < vertex_count(before) && is_last_entry(index, count, p, k) ==> #[trigger] color_at(after, p) == (#[trigger] reds[k], ZERO_BITS, ZERO_BITS)
    &&& forall|p: int| 0 <= p < vertex_count(before) && (forall|k: int| 0 <= k < count ==> #[trigger] index[k] != p) ==> #[trigger] color_at(after, p) == color_at(before, p)
}

/// Colours the listed vertices by their values, already normalised: the
/// value goes to the red channel alone, and unlisted vertices keep their colour.
pub fn color_by_sparse_values(buf: &mut Vec<u32>, index: &Vec<u32>, reds: &Vec<u32>)
    requires
        is_vertex_buffer(old(buf)@),
        index@.len() == reds@.len(),
        indices_in_range(index@, vertex_count(old(buf)@)),
    ensures
        colored_by_sparse_values(old(buf)@, index@, reds@, index@.len() as int, final(buf)@),
{
    let mut i: usize = 0;
    while i < index.len()
        invariant
            i <= index@.len(),
            index@.len() == reds@.len(),
            is_vertex_buffer(old(buf)@),
            indices_in_range(index@, vertex_count(old(buf)@)),
            colored_by_sparse_values(old(buf)@, index@, reds@, i as int, buf@),
        decreases index.len() - i,
    {
        let ghost mid = buf@;
        let p: usize = index[i] as usize;
        set_color(buf, p, (reds[i], ZERO_BITS, ZERO_BITS));
        proof {
            let before = old(buf)@;
            let idx = index@;
            assert forall|q: int, k: int| 0 <= q < vertex_count(before) && is_last_entry(idx, i + 1, q, k) implies #[trigger] color_at(buf@, q) == (#[trigger] reds@[k], ZERO_BITS, ZERO_BITS) by {
                if k < i {
                    assert(idx[i as int] != q);
                    assert(is_last_entry(idx, i as int, q, k));
                    assert(color_at(buf@, q) == color_at(mid, q));
                }
            }
            assert forall|q: int| 0 <= q < vertex_count(before) && (forall|k: int| 0 <= k < i + 1 ==> #[trigger] idx[k] != q) implies #[trigger] color_at(buf@, q) == color_at(before, q) by {
                assert(idx[i as int] != q);
                assert(color_at(buf@, q) == color_at(mid, q));
            }
        }
        i += 1;
    }
}

/// The values of a numeric column, dense or sparse; a categorical column has none.
pub open spec fn numeric_values(col: CountFileMetaColumnData) -> Option<Seq<u32>> {
    match col {
        CountFileMetaColumnData::Categorical(_, _) => None,
        CountFileMetaColumnData::Numeric(values) => Some(values@),
        CountFileMetaColumnData::SparseNumeric(_, values) => Some(values@),
    }
}

/// The divisor by which the values of a numeric column are to be divided
/// before they are written as colours; a categorical column has none.
pub fn normalizer(col: &CountFileMetaColumnData) -> (r: Option<u32>)
    ensures
        r is Some == numeric_values(*col).is_some(),
        r matches Some(m) ==> is_safe_max(numeric_values(*col).unwrap(), m),
{
    match col {
        CountFileMetaColumnData::Categorical(_, _) => None,
        CountFileMetaColumnData::Numeric(values) => Some(make_safe_max(values)),
        CountFileMetaColumnData::SparseNumeric(_, values) => Some(make_safe_max(values)),
    }
}

/// `after` is `before` coloured by the column: by palette for categories,
/// by `reds`, the normalised values, for either numeric layout.
pub open spec fn encoded(before: Seq<u32>, col: CountFileMetaColumnData, palette: Seq<Color3>, reds: Seq<u32>, after: Seq<u32>) -> bool {
    match col {
        CountFileMetaColumnData::Categorical(codes, _) => colored_by_category(before, codes@, palette, after),
        CountFileMetaColumnData::Numeric(_) => colored_by_values(before, reds, after),
        CountFileMetaColumnData::SparseNumeric(index, _) => colored_by_sparse_values(before, index@, reds, index@.len() as int, after),
    }
}

/// Writes the colours of a column into the render buffer and leaves every
/// position as it was. `reds` holds the values of a numeric column divided
/// by its normalizer, one for each value; a categorical column ignores it.
pub fn encode_colors(buf: &mut Vec<u32>, col: &CountFileMetaColumnData, palette: &Vec<Color3>, reds: &Vec<u32>)
    requires
        is_vertex_buffer(old(buf)@),
        column_fits(*col, vertex_count(old(buf)@)),
        col is Categorical ==> palette@.len() > 0,
        numeric_values(*col) matches Some(values) ==> reds@.len() == values.len(),
    ensures
        encoded(old(buf)@, *col, palette@, reds@, final(buf)@),
{
    match col {
        CountFileMetaColumnData::Categorical(codes, _) => color_by_category(buf, codes, palette),
        CountFileMetaColumnData::Numeric(_) => color_by_values(buf, reds),
        CountFileMetaColumnData::SparseNumeric(index, _) => color_by_sparse_values(buf, index, reds),
    }
}

/// Colouring never moves a point: whatever the column, every position of
/// the buffer is what it was.
pub proof fn encoding_keeps_positions(before: Seq<u32>, col: CountFileMetaColumnData, palette: Seq<Color3>, reds: Seq<u32>, after: Seq<u32>)
    requires
        encoded(before, col, palette, reds, after),
    ensures
        same_positions(before, after),
{
}

/// A point that a sparse column does not list keeps its colour, and a
/// listed one gets green and blue zero.
pub proof fn sparse_touches_listed_only(before: Seq<u32>, index: Seq<u32>, reds: Seq<u32>, after: Seq<u32>, p: int)
    requires
        colored_by_sparse_values(before, index, reds, index.len() as int, after),
        0 <= p < vertex_count(before),
    ensures
        !index.contains(p as u32) ==> color_at(after, p) == color_at(before, p),
{
    if !index.contains(p as u32) {
        assert forall|k: int| 0 <= k < index.len() implies #[trigger] index[k] != p by {
            if index[k] == p {
                assert(index[k] == p as u32);
                assert(index.contains(p as u32));
            }
        }
    }
}

/// The palette wraps: a category code and the same code plus the palette's
/// length get the same colour.
pub proof fn palette_wraps(palette: Seq<Color3>, code: u32)
    requires
        palette.len() > 0,
        code + palette.len() <= u32::MAX,
    ensures
        palette_color(palette, (code + palette.len()) as u32) == palette_color(palette, code),
        0 <= (code as int) % (palette.len() as int) < palette.len(),
{
    let n = palette.len() as int;
    assert((code + n) % n == (code as int) % n) by (nonlinear_arith)
        requires
            n > 0,
            code >= 0,
    ;
}

} // verus!
