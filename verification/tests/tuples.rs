use raytracer::tuples::Tuple;

fn fx(v: f64) -> i128 {
    (v * 1_000_000_000f64).round() as i128
}

const TOL: i128 = 10_000;

fn close(a: i128, b: i128) -> bool {
    (a - b).abs() <= TOL
}

fn tuple_close(a: Tuple, b: Tuple) -> bool {
    close(a.x, b.x) && close(a.y, b.y) && close(a.z, b.z) && close(a.w, b.w)
}

#[test]
fn tuple_with_w_equals_1_is_point() {
    let a = Tuple::new(fx(4.3), fx(-4.2), fx(3.1), fx(1.0));

    assert_eq!(a.x, fx(4.3));
    assert_eq!(a.y, fx(-4.2));
    assert_eq!(a.z, fx(3.1));
    assert_eq!(a.w, fx(1.0));

    assert!(a.is_point());
    assert!(!a.is_vector())
}

#[test]
fn tuple_with_w_equals_0_is_vector() {
    let a = Tuple::new(fx(4.3), fx(-4.2), fx(3.1), fx(0.0));

    assert_eq!(a.x, fx(4.3));
    assert_eq!(a.y, fx(-4.2));
    assert_eq!(a.z, fx(3.1));
    assert_eq!(a.w, fx(0.0));

    assert!(!a.is_point());
    assert!(a.is_vector())
}

#[test]
fn create_point_tuple() {
    let p = Tuple::point(fx(4.0), fx(-4.0), fx(3.0));
    assert_eq!(p, Tuple::new(fx(4.0), fx(-4.0), fx(3.0), fx(1.0)))
}

#[test]
fn create_vector_tuple() {
    let p = Tuple::vector(fx(4.0), fx(-4.0), fx(3.0));
    assert_eq!(p, Tuple::new(fx(4.0), fx(-4.0), fx(3.0), fx(0.0)))
}

#[test]
fn adding_tuples() {
    let a1 = Tuple::new(fx(3.0), fx(-2.0), fx(5.0), fx(1.0));
    let a2 = Tuple::new(fx(-2.0), fx(3.0), fx(1.0), fx(0.0));

    assert_eq!(a1.add(&a2), Tuple::new(fx(1.0), fx(1.0), fx(6.0), fx(1.0)))
}

#[test]
fn subtracting_two_points() {
    let p1 = Tuple::point(fx(3.0), fx(2.0), fx(1.0));
    let p2 = Tuple::point(fx(5.0), fx(6.0), fx(7.0));

    assert_eq!(p1.sub(&p2), Tuple::vector(fx(-2.0), fx(-4.0), fx(-6.0)));
}

#[test]
fn subtracting_vector_from_point() {
    let p = Tuple::point(fx(3.0), fx(2.0), fx(1.0));
    let v = Tuple::vector(fx(5.0), fx(6.0), fx(7.0));

    assert_eq!(p.sub(&v), Tuple::point(fx(-2.0), fx(-4.0), fx(-6.0)));
}

#[test]
fn subtracting_two_vectors() {
    let v1 = Tuple::vector(fx(3.0), fx(2.0), fx(1.0));
    let v2 = Tuple::vector(fx(5.0), fx(6.0), fx(7.0));

    assert_eq!(v1.sub(&v2), Tuple::vector(fx(-2.0), fx(-4.0), fx(-6.0)));
}

#[test]
fn subtracting_vector_from_zero_vector() {
    let zero = Tuple::vector(0, 0, 0);
    let v = Tuple::vector(fx(1.0), fx(-2.0), fx(3.0));
    assert_eq!(zero.sub(&v), Tuple::vector(fx(-1.0), fx(2.0), fx(-3.0)));
}

#[test]
fn negating_a_tuple() {
    let a = Tuple::new(fx(1.0), fx(-2.0), fx(3.0), fx(-4.0));
    assert_eq!(a.neg(), Tuple::new(fx(-1.0), fx(2.0), fx(-3.0), fx(4.0)))
}

#[test]
fn multiplying_tuple_by_scalar() {
    let a = Tuple::new(fx(1.0), fx(-2.0), fx(3.0), fx(-4.0));
    assert_eq!(
        a.mul_scalar(fx(3.5)),
        Tuple::new(fx(3.5), fx(-7.0), fx(10.5), fx(-14.0))
    );
}

#[test]
fn multiplying_tuple_by_fraction() {
    let a = Tuple::new(fx(1.0), fx(-2.0), fx(3.0), fx(-4.0));
    assert_eq!(
        a.mul_scalar(fx(0.5)),
        Tuple::new(fx(0.5), fx(-1.0), fx(1.5), fx(-2.0))
    );
}

#[test]
fn dividing_tuple_by_scalar() {
    let a = Tuple::new(fx(1.0), fx(-2.0), fx(3.0), fx(-4.0));
    assert_eq!(
        a.div_scalar(fx(2.0)),
        Tuple::new(fx(0.5), fx(-1.0), fx(1.5), fx(-2.0))
    );
}

#[test]
fn computing_magnitude_of_vector_1() {
    let v = Tuple::vector(fx(1.0), 0, 0);
    assert_eq!(v.magnitude(), fx(1.0));
}

#[test]
fn computing_magnitude_of_vector_2() {
    let v = Tuple::vector(0, fx(1.0), 0);
    assert_eq!(v.magnitude(), fx(1.0));
}

#[test]
fn computing_magnitude_of_vector_3() {
    let v = Tuple::vector(0, 0, fx(1.0));
    assert_eq!(v.magnitude(), fx(1.0));
}

#[test]
fn computing_magnitude_of_vector_4() {
    let v = Tuple::vector(fx(1.0), fx(2.0), fx(3.0));
    assert!(close(v.magnitude(), fx(14f64.sqrt())));
}

#[test]
fn computing_magnitude_of_vector_5() {
    let v = Tuple::vector(fx(-1.0), fx(-2.0), fx(-3.0));
    assert!(close(v.magnitude(), fx(14f64.sqrt())));
}

#[test]
fn normalizing_vector_1() {
    let v = Tuple::vector(fx(4.0), 0, 0);
    assert_eq!(v.normalize().unwrap(), Tuple::vector(fx(1.0), 0, 0));
}

#[test]
fn normalizing_vector_2() {
    let v = Tuple::vector(fx(1.0), fx(2.0), fx(3.0));
    assert!(tuple_close(
        v.normalize().unwrap(),
        Tuple::vector(fx(0.26726), fx(0.53452), fx(0.80178))
    ));
}

#[test]
fn magnitude_of_normalized_vector() {
    let v = Tuple::vector(fx(1.0), fx(2.0), fx(3.0));
    let norm = v.normalize().unwrap();
    assert!(close(norm.magnitude(), fx(1.0)));
}

#[test]
fn dot_product_of_two_tuples() {
    let a = Tuple::vector(fx(1.0), fx(2.0), fx(3.0));
    let b = Tuple::vector(fx(2.0), fx(3.0), fx(4.0));
    assert_eq!(a.dot(&b), fx(20.0));
}

#[test]
fn cross_product_of_two_vectors() {
    let a = Tuple::vector(fx(1.0), fx(2.0), fx(3.0));
    let b = Tuple::vector(fx(2.0), fx(3.0), fx(4.0));
    assert_eq!(a.cross(&b), Tuple::vector(fx(-1.0), fx(2.0), fx(-1.0)));
    assert_eq!(b.cross(&a), Tuple::vector(fx(1.0), fx(-2.0), fx(1.0)));
}

#[test]
fn create_color() {
    let c = Tuple::color(fx(-0.5), fx(0.4), fx(1.7));
    assert_eq!(c.red(), fx(-0.5));
    assert_eq!(c.green(), fx(0.4));
    assert_eq!(c.blue(), fx(1.7));
}

#[test]
fn adding_colors() {
    let c1 = Tuple::color(fx(0.9), fx(0.6), fx(0.75));
    let c2 = Tuple::color(fx(0.7), fx(0.1), fx(0.25));
    assert!(tuple_close(c1.add(&c2), Tuple::color(fx(1.6), fx(0.7), fx(1.0))));
}

#[test]
fn subtracting_colors() {
    let c1 = Tuple::color(fx(0.9), fx(0.6), fx(0.75));
    let c2 = Tuple::color(fx(0.7), fx(0.1), fx(0.25));
    assert!(tuple_close(c1.sub(&c2), Tuple::color(fx(0.2), fx(0.5), fx(0.5))));
}

#[test]
fn multiplying_color_by_scalar() {
    let c = Tuple::color(fx(0.2), fx(0.3), fx(0.4));
    assert_eq!(
        c.mul_scalar(fx(2.0)),
        Tuple::color(fx(0.4), fx(0.6), fx(0.8))
    );
}

#[test]
fn multiplying_colors() {
    let c1 = Tuple::color(fx(1.0), fx(0.2), fx(0.4));
    let c2 = Tuple::color(fx(0.9), fx(1.0), fx(0.1));
    assert!(tuple_close(c1.mul(&c2), Tuple::color(fx(0.9), fx(0.2), fx(0.04))));
}

#[test]
fn reflecting_a_vector_approaching_at_45_deg() {
    let v = Tuple::vector(fx(1.0), fx(-1.0), 0);
    let n = Tuple::vector(0, fx(1.0), 0);

    let r = v.reflect(&n);

    assert_eq!(r, Tuple::vector(fx(1.0), fx(1.0), 0));
}

#[test]
fn reflecting_a_vector_of_a_slanted_surface() {
    let sqrt2_2 = std::f64::consts::SQRT_2 / 2.0;
    let v = Tuple::vector(0, fx(-1.0), 0);
    let n = Tuple::vector(fx(sqrt2_2), fx(sqrt2_2), 0);

    let r = v.reflect(&n);

    assert!(tuple_close(r, Tuple::vector(fx(1.0), 0, 0)));
}
