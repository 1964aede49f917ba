use vecfx::{imax, imin, max, min};

#[test]
fn extremes_pass_over_nan() {
    let xs = [1.0, 2.0, f64::NAN, 3.0, 4.0];
    assert_eq!(min(&xs), 1.0);
    assert_eq!(max(&xs), 4.0);
    assert_eq!(imin(&xs), 0);
    assert_eq!(imax(&xs), 4);
}

#[test]
fn extremes_of_two_samples() {
    let val = [958.0000000000, 924.0000000000];
    assert_eq!(min(&val), 924.0);
    assert_eq!(max(&val), 958.0);
    assert_eq!(imin(&val), 1);
    assert_eq!(imax(&val), 0);
}

#[test]
fn leading_nan_gives_way_in_min_and_max() {
    let xs = [f64::NAN, 2.0, -1.0];
    assert_eq!(min(&xs), -1.0);
    assert_eq!(max(&xs), 2.0);
    let all_nan = [f64::NAN, f64::NAN];
    assert!(min(&all_nan).is_nan());
}

#[test]
fn ties_keep_the_earliest_index() {
    let xs = [5, 1, 7, 1, 7];
    assert_eq!(imin(&xs), 1);
    assert_eq!(imax(&xs), 2);
    assert_eq!(imin(&[42]), 0);
    assert_eq!(imax(&[42]), 0);
}
