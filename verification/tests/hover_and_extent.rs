use reduction_view::hover::{indexable_points, nearest_among, nearest_within};
use reduction_view::points::{convert_from_response_to_reduction_data, extent_between, Extent, ReductionResponse};

fn b(v: f32) -> u32 {
    v.to_bits()
}

fn bits(vs: &[f32]) -> Vec<u32> {
    vs.iter().map(|v| v.to_bits()).collect()
}

#[test]
fn nearest_prefers_least_distance_then_lowest_id() {
    assert_eq!(nearest_within(&bits(&[3.0, 1.0, 2.0]), b(10.0)), Some(1));
    assert_eq!(nearest_within(&bits(&[2.0, 1.0, 1.0, 5.0]), b(10.0)), Some(1));
    assert_eq!(nearest_within(&bits(&[0.0, -0.0]), b(10.0)), Some(0));
    assert_eq!(nearest_within(&bits(&[4.0, 4.0]), b(4.0)), Some(0));
}

#[test]
fn nearest_is_none_when_empty_or_out_of_reach() {
    assert_eq!(nearest_within(&Vec::new(), b(10.0)), None);
    assert_eq!(nearest_within(&bits(&[11.0, 12.0]), b(10.0)), None);
    assert_eq!(nearest_within(&bits(&[f32::NAN, f32::INFINITY]), b(f32::INFINITY)), None);
    assert_eq!(nearest_within(&bits(&[1.0]), b(f32::NAN)), None);
    assert_eq!(nearest_within(&bits(&[f32::NAN, 11.0, 3.0]), b(10.0)), Some(2));
}

#[test]
fn nearest_among_candidates_in_any_order() {
    let d = |vs: &[f32]| -> Vec<u32> { vs.iter().map(|v| v.to_bits()).collect() };
    assert_eq!(nearest_among(&vec![7, 3, 5], &d(&[2.0, 1.0, 3.0]), b(10.0)), Some(3));
    assert_eq!(nearest_among(&vec![7, 3, 5], &d(&[1.0, 1.0, 1.0]), b(10.0)), Some(3));
    assert_eq!(nearest_among(&vec![3, 7, 5], &d(&[1.0, 1.0, 0.5]), b(10.0)), Some(5));
    assert_eq!(nearest_among(&vec![7, 3], &d(&[20.0, f32::NAN]), b(10.0)), None);
    assert_eq!(nearest_among(&Vec::new(), &Vec::new(), b(10.0)), None);
    assert_eq!(nearest_among(&vec![0, 1, 2], &d(&[3.0, 1.0, 2.0]), b(10.0)), Some(1));
}

#[test]
fn extents_tell_flat_and_unset_bounds_apart() {
    assert_eq!(extent_between(b(1.0), b(3.0)), Extent::Span);
    assert_eq!(extent_between(b(2.0), b(2.0)), Extent::Flat);
    assert_eq!(extent_between(b(-0.0), b(0.0)), Extent::Flat);
    assert_eq!(extent_between(b(f32::MAX), b(f32::MIN)), Extent::Unset);
    let flat = convert_from_response_to_reduction_data(ReductionResponse {
        x: vec![b(4.0), b(4.0)],
        y: vec![b(1.0), b(2.0)],
    });
    assert_eq!(flat.extent_x(), Extent::Flat);
    assert_eq!(flat.extent_y(), Extent::Span);
    let empty = convert_from_response_to_reduction_data(ReductionResponse { x: vec![], y: vec![] });
    assert_eq!(empty.extent_x(), Extent::Unset);
    assert_eq!(empty.extent_y(), Extent::Unset);
}

#[test]
fn index_leaves_out_points_that_are_not_finite() {
    let data = convert_from_response_to_reduction_data(ReductionResponse {
        x: vec![b(1.0), b(f32::NAN), b(2.0), b(3.0), b(f32::INFINITY)],
        y: vec![b(1.0), b(1.0), b(f32::NEG_INFINITY), b(-3.0), b(f32::NAN)],
    });
    assert_eq!(indexable_points(&data), vec![0, 3]);
    let empty = convert_from_response_to_reduction_data(ReductionResponse { x: vec![], y: vec![] });
    assert_eq!(indexable_points(&empty), Vec::<usize>::new());
}
