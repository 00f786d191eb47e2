use reduction_view::color::{
    check_indices, color_by_category, color_by_sparse_values, color_by_values, encode_colors, make_safe_max,
    normalizer, validate_column, ColumnError, CountFileMetaColumnData,
};
use reduction_view::coloring::{AsyncData, PerCellDataSource, ReductionColoring, ReductionColoringWithData};
use reduction_view::points::{convert_from_response_to_reduction_data, ReductionResponse};
use reduction_view::render::{can_encode, render_buffer};
use reduction_view::vertex::{make_vertex_buffer, set_color, VERTEX_SIZE};

fn b(v: f32) -> u32 {
    v.to_bits()
}

fn bits(vs: &[f32]) -> Vec<u32> {
    vs.iter().map(|v| v.to_bits()).collect()
}

fn floats(vs: &[u32]) -> Vec<f32> {
    vs.iter().map(|v| f32::from_bits(*v)).collect()
}

fn buffer(n: usize) -> Vec<u32> {
    let xs: Vec<f32> = (0..n).map(|i| i as f32 + 1.0).collect();
    let ys: Vec<f32> = (0..n).map(|i| -(i as f32) - 1.0).collect();
    let data = convert_from_response_to_reduction_data(ReductionResponse { x: bits(&xs), y: bits(&ys) });
    make_vertex_buffer(&data)
}

fn normalized(values: &[u32]) -> Vec<u32> {
    let m = f32::from_bits(make_safe_max(&values.to_vec()));
    values.iter().map(|v| (f32::from_bits(*v) / m).to_bits()).collect()
}

fn color_of(buf: &[u32], i: usize) -> (f32, f32, f32) {
    (f32::from_bits(buf[6 * i + 3]), f32::from_bits(buf[6 * i + 4]), f32::from_bits(buf[6 * i + 5]))
}

fn palette2() -> Vec<(u32, u32, u32)> {
    vec![(b(1.0), b(0.0), b(0.0)), (b(0.0), b(0.5), b(1.0))]
}

#[test]
fn vertex_buffer_has_positions_and_black_colors() {
    assert_eq!(VERTEX_SIZE, 6);
    let buf = buffer(2);
    assert_eq!(floats(&buf), vec![1.0, -1.0, 0.0, 0.0, 0.0, 0.0, 2.0, -2.0, 0.0, 0.0, 0.0, 0.0]);
    assert!(buffer(0).is_empty());
}

#[test]
fn set_color_touches_one_vertex() {
    let mut buf = buffer(3);
    set_color(&mut buf, 1, (b(0.25), b(0.5), b(0.75)));
    assert_eq!(color_of(&buf, 0), (0.0, 0.0, 0.0));
    assert_eq!(color_of(&buf, 1), (0.25, 0.5, 0.75));
    assert_eq!(color_of(&buf, 2), (0.0, 0.0, 0.0));
    assert_eq!(f32::from_bits(buf[6]), 2.0);
    assert_eq!(f32::from_bits(buf[7]), -2.0);
    assert_eq!(f32::from_bits(buf[8]), 0.0);
}

#[test]
fn categorical_colors_wrap_around_palette() {
    let mut buf = buffer(3);
    let before = buf.clone();
    color_by_category(&mut buf, &vec![0, 1, 2], &palette2());
    assert_eq!(color_of(&buf, 0), (1.0, 0.0, 0.0));
    assert_eq!(color_of(&buf, 1), (0.0, 0.5, 1.0));
    assert_eq!(color_of(&buf, 2), (1.0, 0.0, 0.0));
    for i in 0..3 {
        assert_eq!(buf[6 * i..6 * i + 3], before[6 * i..6 * i + 3]);
    }
}

#[test]
fn numeric_colors_normalize_into_red_channel() {
    let values = bits(&[0.0, 5.0, 10.0]);
    assert_eq!(f32::from_bits(make_safe_max(&values)), 10.0);
    let mut buf = buffer(3);
    set_color(&mut buf, 1, (b(0.3), b(0.3), b(0.3)));
    color_by_values(&mut buf, &normalized(&values));
    assert_eq!(color_of(&buf, 0), (0.0, 0.0, 0.0));
    assert_eq!(color_of(&buf, 1), (0.5, 0.0, 0.0));
    assert_eq!(color_of(&buf, 2), (1.0, 0.0, 0.0));
    assert_eq!(f32::from_bits(buf[0]), 1.0);
    assert_eq!(f32::from_bits(buf[13]), -3.0);
}

#[test]
fn sparse_colors_touch_listed_points_only() {
    let values = bits(&[2.0, 8.0]);
    let mut buf = buffer(4);
    set_color(&mut buf, 0, (b(0.1), b(0.2), b(0.3)));
    set_color(&mut buf, 3, (b(0.4), b(0.5), b(0.6)));
    color_by_sparse_values(&mut buf, &vec![3, 1], &normalized(&values));
    assert_eq!(color_of(&buf, 0), (0.1, 0.2, 0.3));
    assert_eq!(color_of(&buf, 1), (1.0, 0.0, 0.0));
    assert_eq!(color_of(&buf, 2), (0.0, 0.0, 0.0));
    assert_eq!(color_of(&buf, 3), (0.25, 0.0, 0.0));
}

#[test]
fn sparse_colors_last_entry_wins() {
    let mut buf = buffer(2);
    color_by_sparse_values(&mut buf, &vec![1, 1], &bits(&[0.25, 0.75]));
    assert_eq!(color_of(&buf, 0), (0.0, 0.0, 0.0));
    assert_eq!(color_of(&buf, 1), (0.75, 0.0, 0.0));
}

#[test]
fn safe_max_floors_to_one() {
    assert_eq!(f32::from_bits(make_safe_max(&Vec::new())), 1.0);
    assert_eq!(f32::from_bits(make_safe_max(&bits(&[0.0, 0.0]))), 1.0);
    assert_eq!(f32::from_bits(make_safe_max(&bits(&[-3.0, -1.0]))), 1.0);
    assert_eq!(f32::from_bits(make_safe_max(&bits(&[f32::NAN, f32::INFINITY]))), 1.0);
    assert_eq!(f32::from_bits(make_safe_max(&bits(&[f32::NAN, 0.5, f32::INFINITY, 0.25]))), 0.5);
    assert_eq!(f32::from_bits(make_safe_max(&bits(&[3.0, 7.0, 7.0, 1.0]))), 7.0);
    assert_eq!(f32::from_bits(make_safe_max(&bits(&[1e-9, 1e-12]))), f32::EPSILON);
    assert_eq!(f32::from_bits(make_safe_max(&bits(&[f32::EPSILON]))), f32::EPSILON);
    assert_eq!(f32::from_bits(make_safe_max(&bits(&[f32::MIN_POSITIVE, -1.0]))), f32::EPSILON);
}

#[test]
fn normalized_values_are_never_nan() {
    for values in [bits(&[0.0, 0.0]), bits(&[-1.0, 0.0]), bits(&[4.0, 2.0]), bits(&[1e-30, 1e-38]), Vec::new()] {
        for v in normalized(&values) {
            assert!(!f32::from_bits(v).is_nan());
            assert!(f32::from_bits(v) <= 1.0);
        }
    }
}

#[test]
fn normalizer_is_for_numeric_columns() {
    assert_eq!(normalizer(&CountFileMetaColumnData::Categorical(vec![0, 1], vec!["a".to_string(), "b".to_string()])), None);
    assert_eq!(normalizer(&CountFileMetaColumnData::Numeric(bits(&[1.0, 4.0]))), Some(b(4.0)));
    assert_eq!(normalizer(&CountFileMetaColumnData::SparseNumeric(vec![0], bits(&[0.0]))), Some(b(1.0)));
}

#[test]
fn column_validation_reports_each_error() {
    let cat = CountFileMetaColumnData::Categorical(vec![0, 1, 2], vec!["a".to_string()]);
    assert_eq!(validate_column(&cat, 3), Ok(()));
    assert_eq!(validate_column(&cat, 4), Err(ColumnError::LengthMismatch));
    let num = CountFileMetaColumnData::Numeric(bits(&[1.0, 2.0]));
    assert_eq!(validate_column(&num, 2), Ok(()));
    assert_eq!(validate_column(&num, 1), Err(ColumnError::LengthMismatch));
    let sparse = CountFileMetaColumnData::SparseNumeric(vec![0, 4], bits(&[1.0, 2.0]));
    assert_eq!(validate_column(&sparse, 5), Ok(()));
    assert_eq!(validate_column(&sparse, 4), Err(ColumnError::IndexOutOfRange));
    let ragged = CountFileMetaColumnData::SparseNumeric(vec![0, 9], bits(&[1.0]));
    assert_eq!(validate_column(&ragged, 3), Err(ColumnError::LengthMismatch));
    assert!(check_indices(&vec![], 0));
    assert!(check_indices(&vec![0, 1, 2], 3));
    assert!(!check_indices(&vec![0, 3], 3));
}

#[test]
fn encode_dispatches_on_column_kind() {
    let mut buf = buffer(3);
    let cat = CountFileMetaColumnData::Categorical(vec![1, 0, 3], vec![]);
    encode_colors(&mut buf, &cat, &palette2(), &Vec::new());
    assert_eq!(color_of(&buf, 0), (0.0, 0.5, 1.0));
    assert_eq!(color_of(&buf, 1), (1.0, 0.0, 0.0));
    assert_eq!(color_of(&buf, 2), (0.0, 0.5, 1.0));

    let values = bits(&[0.0, 5.0, 10.0]);
    let mut buf = buffer(3);
    encode_colors(&mut buf, &CountFileMetaColumnData::Numeric(values.clone()), &Vec::new(), &normalized(&values));
    assert_eq!(color_of(&buf, 1), (0.5, 0.0, 0.0));

    let mut buf = buffer(3);
    let sparse = CountFileMetaColumnData::SparseNumeric(vec![2], bits(&[4.0]));
    encode_colors(&mut buf, &sparse, &Vec::new(), &normalized(&bits(&[4.0])));
    assert_eq!(color_of(&buf, 0), (0.0, 0.0, 0.0));
    assert_eq!(color_of(&buf, 2), (1.0, 0.0, 0.0));
}

#[test]
fn coloring_is_paired_with_its_data() {
    let col = CountFileMetaColumnData::Numeric(bits(&[1.0]));
    let source = PerCellDataSource::Metadata("depth".to_string());
    let with = ReductionColoring::ByMeta(source.clone()).get_umap_coloring(AsyncData::Loaded(col.clone()));
    assert_eq!(with, ReductionColoringWithData::ByMeta(source.clone(), AsyncData::Loaded(col.clone())));
    assert_eq!(with.column(), Some(&col));
    let none = ReductionColoring::Uncolored.get_umap_coloring(AsyncData::Loaded(col));
    assert_eq!(none, ReductionColoringWithData::Uncolored);
    assert_eq!(none.column(), None);
    let waiting = ReductionColoring::ByMeta(source).get_umap_coloring(AsyncData::Loading);
    assert_eq!(waiting.column(), None);
}

#[test]
fn legend_is_named_after_metadata() {
    assert_eq!(PerCellDataSource::Metadata("nCount_RNA".to_string()).legend_name(), "nCount_RNA");
    assert_eq!(
        PerCellDataSource::Counts("rna".to_string(), "actb".to_string()).legend_name(),
        "Error_naming_legend"
    );
}

#[test]
fn render_buffer_without_coloring_is_black() {
    let data = convert_from_response_to_reduction_data(ReductionResponse { x: bits(&[1.0, 2.0]), y: bits(&[3.0, 4.0]) });
    let blank = make_vertex_buffer(&data);
    assert_eq!(floats(&blank), vec![1.0, 3.0, 0.0, 0.0, 0.0, 0.0, 2.0, 4.0, 0.0, 0.0, 0.0, 0.0]);
    let source = PerCellDataSource::Metadata("cluster".to_string());
    assert_eq!(render_buffer(&data, &ReductionColoringWithData::Uncolored, &palette2(), &Vec::new()), blank);
    let loading = ReductionColoringWithData::ByMeta(source.clone(), AsyncData::Loading);
    assert_eq!(render_buffer(&data, &loading, &palette2(), &Vec::new()), blank);
    let misfit = ReductionColoringWithData::ByMeta(
        source.clone(),
        AsyncData::Loaded(CountFileMetaColumnData::SparseNumeric(vec![2], bits(&[1.0]))),
    );
    assert_eq!(render_buffer(&data, &misfit, &palette2(), &bits(&[1.0])), blank);
    let no_palette = ReductionColoringWithData::ByMeta(
        source,
        AsyncData::Loaded(CountFileMetaColumnData::Categorical(vec![0, 1], vec![])),
    );
    assert_eq!(render_buffer(&data, &no_palette, &Vec::new(), &Vec::new()), blank);
}

#[test]
fn render_buffer_colors_by_loaded_column() {
    let data = convert_from_response_to_reduction_data(ReductionResponse {
        x: bits(&[1.0, 2.0, 3.0]),
        y: bits(&[4.0, 5.0, 6.0]),
    });
    let source = PerCellDataSource::Metadata("cluster".to_string());
    let cat = ReductionColoringWithData::ByMeta(
        source.clone(),
        AsyncData::Loaded(CountFileMetaColumnData::Categorical(vec![0, 1, 2], vec![])),
    );
    let buf = render_buffer(&data, &cat, &palette2(), &Vec::new());
    assert_eq!(
        floats(&buf),
        vec![1.0, 4.0, 0.0, 1.0, 0.0, 0.0, 2.0, 5.0, 0.0, 0.0, 0.5, 1.0, 3.0, 6.0, 0.0, 1.0, 0.0, 0.0]
    );
    let values = bits(&[0.0, 5.0, 10.0]);
    let num = ReductionColoringWithData::ByMeta(source, AsyncData::Loaded(CountFileMetaColumnData::Numeric(values.clone())));
    let buf = render_buffer(&data, &num, &Vec::new(), &normalized(&values));
    assert_eq!(
        floats(&buf),
        vec![1.0, 4.0, 0.0, 0.0, 0.0, 0.0, 2.0, 5.0, 0.0, 0.5, 0.0, 0.0, 3.0, 6.0, 0.0, 1.0, 0.0, 0.0]
    );
}

#[test]
fn can_encode_asks_for_palette_and_values() {
    let cat = CountFileMetaColumnData::Categorical(vec![0, 1], vec![]);
    assert!(can_encode(&cat, 2, &palette2(), &Vec::new()));
    assert!(!can_encode(&cat, 2, &Vec::new(), &Vec::new()));
    assert!(!can_encode(&cat, 3, &palette2(), &Vec::new()));
    let num = CountFileMetaColumnData::Numeric(bits(&[1.0, 2.0]));
    assert!(can_encode(&num, 2, &Vec::new(), &bits(&[0.5, 1.0])));
    assert!(!can_encode(&num, 2, &Vec::new(), &bits(&[0.5])));
    let sparse = CountFileMetaColumnData::SparseNumeric(vec![1], bits(&[2.0]));
    assert!(can_encode(&sparse, 2, &Vec::new(), &bits(&[1.0])));
    assert!(!can_encode(&sparse, 1, &Vec::new(), &bits(&[1.0])));
}
