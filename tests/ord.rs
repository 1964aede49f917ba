use ordered_float::OrderedFloat;
use vecfx::{sort_total, SortByExt};

#[test]
fn test_float_ord() {
    let mut values = vec![1.0, -1.0, 2.0];
    let mut values_ordered: Vec<_> = values.iter().map(|x| OrderedFloat(*x)).collect();
    values_ordered.sort();
    assert_eq!(values_ordered[0], -1.0);
    assert_eq!(values_ordered[2], 2.0);

    values.sort_by_float();
    assert_eq!(values[0], values_ordered[0].into_inner());
    assert_eq!(values[1], values_ordered[1].into_inner());
}

#[test]
fn nan_sorts_after_every_number() {
    let mut values = vec![1.0, -1.0, f64::NAN, 0.5, 2.0];
    values.sort_by_float();
    assert_eq!(&values[..4], &[-1.0, 0.5, 1.0, 2.0]);
    assert!(values[4].is_nan());

    // sorting again changes nothing
    let once = values.clone();
    values.sort_by_float();
    assert_eq!(&values[..4], &once[..4]);
    assert!(values[4].is_nan());
}

#[test]
fn several_nans_all_go_last() {
    let mut values = vec![f64::NAN, 3.0, f64::NAN, -2.0, f64::INFINITY, f64::NEG_INFINITY];
    sort_total(&mut values);
    assert_eq!(&values[..4], &[f64::NEG_INFINITY, -2.0, 3.0, f64::INFINITY]);
    assert!(values[4].is_nan() && values[5].is_nan());
}

#[test]
fn sort_keeps_equal_elements_and_handles_empty() {
    let mut values: Vec<i32> = vec![3, 1, 3, 2, 1];
    values.sort_by_float();
    assert_eq!(values, vec![1, 1, 2, 3, 3]);

    let mut empty: Vec<f64> = vec![];
    empty.sort_by_float();
    assert!(empty.is_empty());
}
