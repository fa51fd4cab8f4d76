use raytracer::materials::Material;
use raytracer::matrices::Matrix4;
use raytracer::rays::Ray;
use raytracer::shapes::Shape;
use raytracer::transformations::Transformation;
use raytracer::tuples::Tuple;
use std::f64::consts::{PI, SQRT_2};

fn fx(v: f64) -> i128 {
    (v * 1_000_000_000f64).round() as i128
}

const TOL: i128 = 10_000;

fn close(a: i128, b: i128) -> bool {
    (a - b).abs() <= TOL
}

fn tuple_close(a: Tuple, b: Tuple) -> bool {
    close(a.x, b.x) && close(a.y, b.y) && close(a.z, b.z) && close(a.w, b.w)
}

fn rot_z(r: f64) -> Matrix4 {
    Transformation::rotation_z(fx(r.sin()), fx(r.cos()))
}

#[test]
fn a_shape_default_transformation() {
    let s = Shape::sphere();

    assert_eq!(s.transform, Matrix4::identity());
}

#[test]
fn changing_a_shape_transformation() {
    let mut s = Shape::sphere();
    let t = Transformation::translation(fx(2.0), fx(3.0), fx(4.0));

    assert!(s.set_transform(t));
    assert_eq!(s.transform, t);
}

#[test]
fn a_shape_has_a_default_material() {
    let s = Shape::sphere();

    let m = s.material;

    assert_eq!(m.diffuse, Material::default().diffuse);
}

#[test]
fn a_sphere_may_be_assigned_a_material() {
    let mut s = Shape::sphere();
    let mut m = Material::default();
    m.ambient = fx(1.0);

    s.set_material(m);

    assert_eq!(s.material.ambient, fx(1.0));
}

#[test]
fn intersect_sets_the_object_on_the_intersection() {
    let r = Ray::new(Tuple::point(0, 0, fx(-5.0)), Tuple::vector(0, 0, fx(1.0)));
    let s = Shape::sphere();

    let xs = s.intersect(&r);

    assert!(!xs.is_empty());
}

#[test]
fn intersecting_a_scaled_shape_with_a_ray() {
    let r = Ray::new(Tuple::point(0, 0, fx(-5.0)), Tuple::vector(0, 0, fx(1.0)));
    let mut s = Shape::sphere();

    assert!(s.set_transform(Transformation::scaling(fx(2.0), fx(2.0), fx(2.0))));
    let xs = s.intersect(&r);

    assert_eq!(xs.len(), 2);
    assert_eq!(xs[0], fx(3.0));
    assert_eq!(xs[1], fx(7.0));
}

#[test]
fn intersecting_a_translated_shape_with_a_ray() {
    let r = Ray::new(Tuple::point(0, 0, fx(-5.0)), Tuple::vector(0, 0, fx(1.0)));
    let mut s = Shape::sphere();

    assert!(s.set_transform(Transformation::translation(fx(5.0), 0, 0)));
    let xs = s.intersect(&r);

    assert_eq!(xs.len(), 0);
}

#[test]
fn computing_normal_on_a_translated_shape() {
    let mut s = Shape::sphere();
    assert!(s.set_transform(Transformation::translation(0, fx(1.0), 0)));

    let n = s.normal_at(&Tuple::point(0, fx(1.70711), fx(-0.70711)));

    assert!(tuple_close(n, Tuple::vector(0, fx(0.70711), fx(-0.70711))));
}

#[test]
fn computing_normal_on_a_transformed_shape() {
    let mut s = Shape::sphere();
    let m = Transformation::scaling(fx(1.0), fx(0.5), fx(1.0)).mul(&rot_z(PI / 5.0));
    assert!(s.set_transform(m));

    let n = s.normal_at(&Tuple::point(0, fx(SQRT_2 / 2.0), fx(-SQRT_2 / 2.0)));

    assert!(tuple_close(n, Tuple::vector(0, fx(0.97014), fx(-0.24254))));
}
