use approx::RelativeEq;
use vecfx::{array_add_generic, array_scale_generic, array_sub_generic, ArrayMathExt};

fn close(a: f64, b: f64, epsilon: f64) -> bool {
    a.relative_eq(&b, epsilon, f64::default_max_relative())
}

#[test]
fn test_array_sub_add() {
    let p1 = [1.0, 2.0, 3.0];
    let p2 = [1.1, 2.2, 3.3];
    let p3 = p2.array_sub(p1);
    let p4 = p2.array_add(p1);
    assert!(close(p3[0], 0.1, 1e-4));
    assert!(close(p3[1], 0.2, 1e-4));
    assert!(close(p3[2], 0.3, 1e-4));
    assert!(close(p4[0], 2.1, 1e-4));
    assert!(close(p4[1], 4.2, 1e-4));
    assert!(close(p4[2], 6.3, 1e-4));
    let p5 = p1.array_scale(2.0);
    assert_eq!(p5[0], 2.0);
    assert_eq!(p5[1], 4.0);
    assert_eq!(p5[2], 6.0);
}

#[test]
fn array_functions_on_integers_are_exact() {
    assert_eq!(array_add_generic([1u64, 2, 3], [10, 20, 30]), [11, 22, 33]);
    assert_eq!(array_sub_generic([10i32, 20, 30], [1, 2, 40]), [9, 18, -10]);
    assert_eq!(array_scale_generic([1i64, -2, 3], 3), [3, -6, 9]);
}

#[test]
fn array_scale_of_floats_is_exact() {
    assert_eq!([1.0, 2.0, 3.0].array_scale(2.0), [2.0, 4.0, 6.0]);
}

#[test]
fn empty_arrays_stay_empty() {
    let e: [f64; 0] = [];
    assert_eq!(e.array_add(e).len(), 0);
}
