use syunit::metric::{Millimeters, PositionMM};
use syunit::{add_unit_arrays, compare_unit_arrays, sub_unit_arrays, Qty};

fn positions(values: &[i64]) -> Vec<Qty<PositionMM>> {
    values.iter().map(|v| Qty::from_int(*v)).collect()
}

fn distances(values: &[i64]) -> Vec<Qty<Millimeters>> {
    values.iter().map(|v| Qty::from_int(*v)).collect()
}

#[test]
fn add_arrays_pairs_index_wise() {
    let base = positions(&[2, 1, -3]);
    let rel = distances(&[1, 3, 5]);
    let moved = add_unit_arrays(&base, &rel);
    assert!(compare_unit_arrays(&moved, &positions(&[3, 4, 2])));
}

#[test]
fn sub_arrays_pairs_index_wise() {
    let base = positions(&[2, 1, -3]);
    let rel = distances(&[1, 3, 5]);
    let moved = sub_unit_arrays(&base, &rel);
    assert!(compare_unit_arrays(&moved, &positions(&[1, -2, -8])));
}

#[test]
fn sub_arrays_of_positions_give_distances() {
    let a = positions(&[5, 10]);
    let b = positions(&[2, 4]);
    let diff: Vec<Qty<Millimeters>> = sub_unit_arrays(&a, &b);
    assert!(compare_unit_arrays(&diff, &distances(&[3, 6])));
}

#[test]
fn compare_arrays_detects_mismatch() {
    let a = distances(&[1, 2, 3]);
    let b = distances(&[1, 2, 4]);
    assert!(!compare_unit_arrays(&a, &b));
    assert!(compare_unit_arrays(&a, &a));
}

#[test]
fn compare_arrays_empty_is_equal() {
    let a = distances(&[]);
    let b = distances(&[]);
    assert!(compare_unit_arrays(&a, &b));
}

#[test]
fn compare_arrays_with_sentinel_is_false() {
    // the sentinel equals nothing, itself included
    let a = vec![Qty::<Millimeters>::nan()];
    assert!(!compare_unit_arrays(&a, &a));
}
