use raytracer::matrices::{Matrix2, Matrix3, Matrix4};
use raytracer::tuples::Tuple;

fn fx(v: f64) -> i128 {
    (v * 1_000_000_000f64).round() as i128
}

const TOL: i128 = 10_000;

fn close(a: i128, b: i128, tol: i128) -> bool {
    (a - b).abs() <= tol
}

fn m4(v: [f64; 16]) -> Matrix4 {
    Matrix4::new(
        fx(v[0]),
        fx(v[1]),
        fx(v[2]),
        fx(v[3]),
        fx(v[4]),
        fx(v[5]),
        fx(v[6]),
        fx(v[7]),
        fx(v[8]),
        fx(v[9]),
        fx(v[10]),
        fx(v[11]),
        fx(v[12]),
        fx(v[13]),
        fx(v[14]),
        fx(v[15]),
    )
}

fn m4_close(a: &Matrix4, b: &Matrix4, tol: i128) -> bool {
    for i in 0..4 {
        for j in 0..4 {
            if !close(a.at(i, j), b.at(i, j), tol) {
                return false;
            }
        }
    }
    true
}

#[test]
fn creating_4x4_matrix() {
    let m = m4([
        1.0, 2.0, 3.0, 4.0, 5.5, 6.5, 7.5, 8.5, 9.0, 10.0, 11.0, 12.0, 13.5, 14.5, 15.5, 16.5,
    ]);
    assert_eq!(m.at(0, 0), fx(1.0));
    assert_eq!(m.at(0, 3), fx(4.0));
    assert_eq!(m.at(1, 0), fx(5.5));
    assert_eq!(m.at(1, 2), fx(7.5));
    assert_eq!(m.at(2, 2), fx(11.0));
    assert_eq!(m.at(3, 0), fx(13.5));
    assert_eq!(m.at(3, 2), fx(15.5));
}

#[test]
fn creating_2x2_matrix() {
    let m = Matrix2::new(fx(-3.0), fx(5.0), fx(1.0), fx(-2.0));
    assert_eq!(m.0[0][0], fx(-3.0));
    assert_eq!(m.0[0][1], fx(5.0));
    assert_eq!(m.0[1][0], fx(1.0));
    assert_eq!(m.0[1][1], fx(-2.0));
}

#[test]
fn creating_3x3_matrix() {
    let m = Matrix3::new(
        fx(-3.0),
        fx(5.0),
        fx(0.0),
        fx(1.0),
        fx(-2.0),
        fx(-7.0),
        fx(0.0),
        fx(1.0),
        fx(1.0),
    );
    assert_eq!(m.0[0][0], fx(-3.0));
    assert_eq!(m.0[1][1], fx(-2.0));
    assert_eq!(m.0[2][2], fx(1.0));
}

#[test]
fn matrix_equality_with_identical_matrices() {
    let a = m4([
        1.0, 2.0, 3.0, 4.0, 5.0, 6.0, 7.0, 8.0, 9.0, 8.0, 7.0, 6.0, 5.0, 4.0, 3.0, 2.0,
    ]);
    let b = m4([
        1.0, 2.0, 3.0, 4.0, 5.0, 6.0, 7.0, 8.0, 9.0, 8.0, 7.0, 6.0, 5.0, 4.0, 3.0, 2.0,
    ]);
    assert_eq!(a, b);
}

#[test]
fn matrix_equality_with_different_matrices() {
    let a = m4([
        1.0, 2.0, 3.0, 4.0, 5.0, 6.0, 7.0, 8.0, 9.0, 8.0, 7.0, 6.0, 5.0, 4.0, 3.0, 2.0,
    ]);
    let b = m4([
        2.0, 3.0, 4.0, 5.0, 6.0, 7.0, 8.0, 9.0, 8.0, 7.0, 6.0, 5.0, 4.0, 3.0, 2.0, 1.0,
    ]);
    assert_ne!(a, b);
}

#[test]
fn multiplying_two_matrices() {
    let a = m4([
        1.0, 2.0, 3.0, 4.0, 5.0, 6.0, 7.0, 8.0, 9.0, 8.0, 7.0, 6.0, 5.0, 4.0, 3.0, 2.0,
    ]);
    let b = m4([
        -2.0, 1.0, 2.0, 3.0, 3.0, 2.0, 1.0, -1.0, 4.0, 3.0, 6.0, 5.0, 1.0, 2.0, 7.0, 8.0,
    ]);
    assert_eq!(
        a.mul(&b),
        m4([
            20.0, 22.0, 50.0, 48.0, 44.0, 54.0, 114.0, 108.0, 40.0, 58.0, 110.0, 102.0, 16.0,
            26.0, 46.0, 42.0
        ])
    );
}

#[test]
fn matrix_multiplied_by_tuple() {
    let a = m4([
        1.0, 2.0, 3.0, 4.0, 2.0, 4.0, 4.0, 2.0, 8.0, 6.0, 4.0, 1.0, 0.0, 0.0, 0.0, 1.0,
    ]);
    let b = Tuple::new(fx(1.0), fx(2.0), fx(3.0), fx(1.0));

    assert_eq!(
        a.mul_tuple(&b),
        Tuple::new(fx(18.0), fx(24.0), fx(33.0), fx(1.0))
    );
}

#[test]
fn multiplying_matrix_by_identity_matrix() {
    let a = m4([
        0.0, 1.0, 2.0, 4.0, 1.0, 2.0, 4.0, 8.0, 2.0, 4.0, 8.0, 16.0, 4.0, 8.0, 16.0, 32.0,
    ]);
    assert_eq!(a.mul(&Matrix4::identity()), a);
}

#[test]
fn multiplying_identity_matrix_by_tuple() {
    let a = Tuple::new(fx(1.0), fx(2.0), fx(3.0), fx(4.0));
    assert_eq!(Matrix4::identity().mul_tuple(&a), a);
}

#[test]
fn transposing_matrix() {
    let a = m4([
        0.0, 9.0, 3.0, 0.0, 9.0, 8.0, 0.0, 8.0, 1.0, 8.0, 5.0, 3.0, 0.0, 0.0, 5.0, 8.0,
    ]);
    assert_eq!(
        a.transpose(),
        m4([0.0, 9.0, 1.0, 0.0, 9.0, 8.0, 8.0, 0.0, 3.0, 0.0, 5.0, 5.0, 0.0, 8.0, 3.0, 8.0])
    );
}

#[test]
fn transposing_identity_matrix() {
    let a = Matrix4::identity().transpose();
    assert_eq!(a, Matrix4::identity());
}

#[test]
fn determinant_2x2_matrix() {
    let a = Matrix2::new(fx(1.0), fx(5.0), fx(-3.0), fx(2.0));
    assert_eq!(a.determinant(), fx(17.0));
}

#[test]
fn submatrix_of_3x3_matrix_is_2x2_matrix() {
    let a = Matrix3::new(
        fx(1.0),
        fx(5.0),
        fx(0.0),
        fx(-3.0),
        fx(2.0),
        fx(7.0),
        fx(0.0),
        fx(6.0),
        fx(-3.0),
    );
    assert_eq!(
        a.sub_matrix(0, 2),
        Matrix2::new(fx(-3.0), fx(2.0), fx(0.0), fx(6.0))
    );
}

#[test]
fn submatrix_of_4x4_matrix_is_3x3_matrix() {
    let a = m4([
        -6.0, 1.0, 1.0, 6.0, -8.0, 5.0, 8.0, 6.0, -1.0, 0.0, 8.0, 2.0, -7.0, 1.0, -1.0, 1.0,
    ]);
    assert_eq!(
        a.sub_matrix(2, 1),
        Matrix3::new(
            fx(-6.0),
            fx(1.0),
            fx(6.0),
            fx(-8.0),
            fx(8.0),
            fx(6.0),
            fx(-7.0),
            fx(-1.0),
            fx(1.0)
        )
    );
}

#[test]
fn minor_of_3x3_matrix() {
    let a = Matrix3::new(
        fx(3.0),
        fx(5.0),
        fx(0.0),
        fx(2.0),
        fx(-1.0),
        fx(-7.0),
        fx(6.0),
        fx(-1.0),
        fx(5.0),
    );
    let b = a.sub_matrix(1, 0);

    assert_eq!(b.determinant(), fx(25.0));
    assert_eq!(a.minor(1, 0), fx(25.0));
}

#[test]
fn cofactor_of_3x3_matrix() {
    let a = Matrix3::new(
        fx(3.0),
        fx(5.0),
        fx(0.0),
        fx(2.0),
        fx(-1.0),
        fx(-7.0),
        fx(6.0),
        fx(-1.0),
        fx(5.0),
    );

    assert_eq!(a.minor(0, 0), fx(-12.0));
    assert_eq!(a.cofactor(0, 0), fx(-12.0));
    assert_eq!(a.minor(1, 0), fx(25.0));
    assert_eq!(a.cofactor(1, 0), fx(-25.0));
}

#[test]
fn determinant_of_3x3_matrix() {
    let a = Matrix3::new(
        fx(1.0),
        fx(2.0),
        fx(6.0),
        fx(-5.0),
        fx(8.0),
        fx(-4.0),
        fx(2.0),
        fx(6.0),
        fx(4.0),
    );
    assert_eq!(a.cofactor(0, 0), fx(56.0));
    assert_eq!(a.cofactor(0, 1), fx(12.0));
    assert_eq!(a.cofactor(0, 2), fx(-46.0));
    assert_eq!(a.determinant(), fx(-196.0));
}

#[test]
fn determinant_of_4x4_matrix() {
    let a = m4([
        -2.0, -8.0, 3.0, 5.0, -3.0, 1.0, 7.0, 3.0, 1.0, 2.0, -9.0, 6.0, -6.0, 7.0, 7.0, -9.0,
    ]);
    assert_eq!(a.cofactor(0, 0), fx(690.0));
    assert_eq!(a.cofactor(0, 1), fx(447.0));
    assert_eq!(a.cofactor(0, 2), fx(210.0));
    assert_eq!(a.cofactor(0, 3), fx(51.0));
    assert_eq!(a.determinant(), fx(-4071.0));
}

#[test]
fn testing_inveritble_matrix_for_invertibility() {
    let a = m4([
        6.0, 4.0, 4.0, 4.0, 5.0, 5.0, 7.0, 6.0, 4.0, -9.0, 3.0, -7.0, 9.0, 1.0, 7.0, -6.0,
    ]);
    assert_eq!(a.determinant(), fx(-2120.0));
    assert!(a.is_invertible());
}

#[test]
fn testing_non_inveritble_matrix_for_invertibility() {
    let a = m4([
        -4.0, 2.0, -3.0, -3.0, 9.0, 6.0, 2.0, 6.0, 0.0, -5.0, 1.0, -5.0, 0.0, 0.0, 0.0, -0.0,
    ]);
    assert_eq!(a.determinant(), fx(0.0));
    assert!(!a.is_invertible());
}

#[test]
fn inverse_of_matrix() {
    let a = m4([
        -5.0, 2.0, 6.0, -8.0, 1.0, -5.0, 1.0, 8.0, 7.0, 7.0, -6.0, -7.0, 1.0, -3.0, 7.0, 4.0,
    ]);
    let b = a.inverse().unwrap();

    assert_eq!(a.determinant(), fx(532.0));
    assert_eq!(a.cofactor(2, 3), fx(-160.0));
    assert!(close(b.at(3, 2), fx(-160.0 / 532.0), TOL));
    assert_eq!(a.cofactor(3, 2), fx(105.0));
    assert!(close(b.at(2, 3), fx(105.0 / 532.0), TOL));
    assert!(m4_close(
        &b,
        &m4([
            0.21805, 0.45113, 0.24060, -0.04511, -0.80827, -1.45677, -0.44361, 0.52068,
            -0.07895, -0.22368, -0.05263, 0.19737, -0.52256, -0.81391, -0.30075, 0.30639
        ]),
        TOL
    ));
}

#[test]
fn inverse_of_matrix_2() {
    let a = m4([
        8.0, -5.0, 9.0, 2.0, 7.0, 5.0, 6.0, 1.0, -6.0, 0.0, 9.0, 6.0, -3.0, 0.0, -9.0, -4.0,
    ]);

    assert!(m4_close(
        &a.inverse().unwrap(),
        &m4([
            -0.15385, -0.15385, -0.28205, -0.53846, -0.07692, 0.12308, 0.02564, 0.03077,
            0.35897, 0.35897, 0.43590, 0.92308, -0.69231, -0.69231, -0.76923, -1.92308
        ]),
        TOL
    ));
}

#[test]
fn inverse_of_matrix_3() {
    let a = m4([
        9.0, 3.0, 0.0, 9.0, -5.0, -2.0, -6.0, -3.0, -4.0, 9.0, 6.0, 4.0, -7.0, 6.0, 6.0, 2.0,
    ]);

    assert!(m4_close(
        &a.inverse().unwrap(),
        &m4([
            -0.04074, -0.07778, 0.14444, -0.22222, -0.07778, 0.03333, 0.36667, -0.33333,
            -0.02901, -0.14630, -0.10926, 0.12963, 0.17778, 0.06667, -0.26667, 0.33333
        ]),
        TOL
    ));
}

#[test]
fn multiplying_product_by_its_inverse() {
    let a = m4([
        3.0, -9.0, 7.0, 3.0, 3.0, -8.0, 2.0, -9.0, -4.0, 4.0, 4.0, 1.0, -6.0, 5.0, -1.0, 1.0,
    ]);
    let b = m4([
        8.0, 2.0, 2.0, 2.0, 3.0, -1.0, 7.0, 0.0, 7.0, 0.0, 5.0, 4.0, 6.0, -2.0, 0.0, 5.0,
    ]);
    let c = a.mul(&b);

    assert!(m4_close(&c.mul(&b.inverse().unwrap()), &a, 1_000));
}
