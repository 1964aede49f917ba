use vecfx::{distance_matrix_with, flat_at, ravel, set_flat_at, set_tuple_at, to_3d, tuple_at};

#[test]
fn flat_buffer_as_tuples() {
    let v = [1., 2., 3.];
    let p = to_3d(&v);
    assert_eq!(vec![[1., 2., 3.]], p);

    let v = vec![1., 2., 3., 4., 5., 6.];
    let p = to_3d(&v);
    assert_eq!(p, vec![[1., 2., 3.], [4., 5., 6.]]);
    assert_eq!(tuple_at(&v, 1), [4., 5., 6.]);
    assert_eq!(ravel(&p), v);
}

#[test]
fn tuples_as_flat_buffer() {
    let positions = [
        [-0.131944, -0.282942, 0.315957],
        [0.40122, -1.210646, 0.315957],
        [-1.201944, -0.282942, 0.315957],
        [0.543331, 0.892036, 0.315957],
        [0.010167, 1.819741, 0.315957],
        [1.613331, 0.892036, 0.315957],
    ];
    let x = ravel(&positions);
    assert_eq!(positions.len() * 3, x.len());
    assert_eq!(18, x.len());
    assert_eq!(flat_at(&positions, 4), -1.210646);

    let mut positions = positions.clone();
    set_flat_at(&mut positions, 0, 0.0);
    assert_eq!(0.0, positions[0][0]);
}

#[test]
fn writes_through_either_shape_are_seen_by_the_other() {
    let mut flat = vec![0, 1, 2, 3, 4, 5, 6, 7, 8];
    set_tuple_at(&mut flat, 1, [30, 40, 50]);
    assert_eq!(flat, vec![0, 1, 2, 30, 40, 50, 6, 7, 8]);

    let mut tuples = to_3d(&flat);
    set_flat_at(&mut tuples, 7, 70);
    assert_eq!(tuples[2], [6, 70, 8]);
    assert_eq!(ravel(&tuples), vec![0, 1, 2, 30, 40, 50, 6, 70, 8]);
}

#[test]
fn empty_buffers_round_trip() {
    let flat: Vec<f64> = vec![];
    let tuples = to_3d(&flat);
    assert!(tuples.is_empty());
    assert!(ravel(&tuples).is_empty());
}

fn euclid(a: &[f64; 3], b: &[f64; 3]) -> f64 {
    let mut s = 0.0;
    for k in 0..3 {
        s += (a[k] - b[k]) * (a[k] - b[k]);
    }
    s.sqrt()
}

#[test]
fn distance_matrix_is_symmetric_with_zero_diagonal() {
    let points = [[0.0, 0.0, 0.0], [1.0, 1.0, 1.0], [3.0, 0.0, 4.0]];
    let m = distance_matrix_with(&points, 0.0, euclid);
    assert_eq!(m.len(), 3);
    for i in 0..3 {
        assert_eq!(m[i].len(), 3);
        assert_eq!(m[i][i], 0.0);
        for j in 0..3 {
            assert_eq!(m[i][j], m[j][i]);
            if i != j {
                assert_eq!(m[i][j], euclid(&points[i], &points[j]));
            }
        }
    }
    assert!((m[0][1] - 3f64.sqrt()).abs() < 1e-12);
    assert_eq!(m[2][0], 5.0);
}

#[test]
fn distance_matrix_of_no_points_is_empty() {
    let points: [[f64; 3]; 0] = [];
    assert!(distance_matrix_with(&points, 0.0, euclid).is_empty());
}
