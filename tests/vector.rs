use vecfx::{vecadd, veccpy, vecdiff, vecncpy, vecscale};

#[test]
fn in_place_vector_math() {
    // vector scaled add
    let x = [1.0, 1.0, 1.0];
    let c = 2.;

    let mut y = [1.0, 2.0, 3.0];
    vecadd(&mut y, &x, c);
    assert_eq!(3.0, y[0]);
    assert_eq!(4.0, y[1]);
    assert_eq!(5.0, y[2]);

    // vector scale
    vecscale(&mut y, 2.0);
    assert_eq!(6.0, y[0]);
    assert_eq!(8.0, y[1]);
    assert_eq!(10.0, y[2]);

    // vector diff
    let mut z = y.clone();
    vecdiff(&mut z, &x, &y);
    assert_eq!(-5.0, z[0]);
    assert_eq!(-7.0, z[1]);
    assert_eq!(-9.0, z[2]);

    // vector copy
    veccpy(&mut y, &x);
    assert_eq!(y, x);

    // y = -x
    vecncpy(&mut y, &x);
    assert_eq!(-1.0, y[0]);
    assert_eq!(-1.0, y[1]);
    assert_eq!(-1.0, y[2]);
}

#[test]
fn in_place_math_on_integers() {
    let mut y = [1i64, 2, 3];
    vecadd(&mut y, &[4, 5, 6], -1);
    assert_eq!(y, [-3, -3, -3]);
    vecscale(&mut y, -2);
    assert_eq!(y, [6, 6, 6]);
}
