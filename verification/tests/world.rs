use raytracer::intersections::{Computations, Intersection};
use raytracer::lights::PointLight;
use raytracer::rays::Ray;
use raytracer::shapes::Shape;
use raytracer::transformations::Transformation;
use raytracer::tuples::Tuple;
use raytracer::world::World;

fn fx(v: f64) -> i128 {
    (v * 1_000_000_000f64).round() as i128
}

const TOL: i128 = 10_000;

fn close(a: i128, b: i128) -> bool {
    (a - b).abs() <= TOL
}

fn tuple_close(a: Tuple, b: Tuple) -> bool {
    close(a.x, b.x) && close(a.y, b.y) && close(a.z, b.z) && close(a.w, b.w)
}

#[test]
fn creating_a_world() {
    let w = World::new();

    assert!(w.objects.is_empty());
    assert!(w.lights.is_empty());
}

#[test]
fn intersect_a_world_with_a_ray() {
    let w = World::default();
    let r = Ray::new(Tuple::point(0, 0, fx(-5.0)), Tuple::vector(0, 0, fx(1.0)));

    let xs = w.intersect(&r);

    assert_eq!(xs.len(), 4);
    assert_eq!(xs[0].t, fx(4.0));
    assert_eq!(xs[1].t, fx(4.5));
    assert_eq!(xs[2].t, fx(5.5));
    assert_eq!(xs[3].t, fx(6.0));
}

#[test]
fn shading_an_intersection() {
    let w = World::default();
    let r = Ray::new(Tuple::point(0, 0, fx(-5.0)), Tuple::vector(0, 0, fx(1.0)));
    let i = Intersection::new(fx(4.0), 0);

    let comps = Computations::prepare(&i, &r, &w.objects[0]);
    let c = w.shade_hit(&comps);

    assert!(tuple_close(c, Tuple::color(fx(0.38066), fx(0.47583), fx(0.2855))));
}

#[test]
fn shading_an_intersection_from_an_inside() {
    let mut w = World::default();
    w.lights[0] = PointLight::new(
        Tuple::point(0, fx(0.25), 0),
        Tuple::color(fx(1.0), fx(1.0), fx(1.0)),
    );
    let r = Ray::new(Tuple::point(0, 0, 0), Tuple::vector(0, 0, fx(1.0)));
    let i = Intersection::new(fx(0.5), 1);

    let comps = Computations::prepare(&i, &r, &w.objects[1]);
    let c = w.shade_hit(&comps);

    assert!(tuple_close(
        c,
        Tuple::color(fx(0.90498), fx(0.90498), fx(0.90498))
    ));
}

#[test]
fn the_color_when_a_ray_misses() {
    let w = World::default();
    let r = Ray::new(Tuple::point(0, 0, fx(-5.0)), Tuple::vector(0, fx(1.0), 0));

    let c = w.color_at(&r);

    assert_eq!(c, Tuple::color(0, 0, 0));
}

#[test]
fn the_color_when_a_ray_hits() {
    let w = World::default();
    let r = Ray::new(Tuple::point(0, 0, fx(-5.0)), Tuple::vector(0, 0, fx(1.0)));

    let c = w.color_at(&r);

    assert!(tuple_close(c, Tuple::color(fx(0.38066), fx(0.47583), fx(0.2855))));
}

#[test]
fn the_color_with_an_intersection_behind_the_ray() {
    let mut w = World::default();
    w.objects[0].material.ambient = fx(1.0);
    w.objects[1].material.ambient = fx(1.0);
    let inner = &w.objects[1];
    let inner_color = inner
        .material
        .pattern
        .pattern_at_shape(inner, &Tuple::point(0, 0, 0));
    let r = Ray::new(Tuple::point(0, 0, fx(0.75)), Tuple::vector(0, 0, fx(-1.0)));

    let c = w.color_at(&r);
    assert_eq!(c, inner_color);
}

#[test]
fn there_is_no_shadow_when_nothing_is_collinear_with_point_and_light() {
    let w = World::default();
    let p = Tuple::point(0, fx(10.0), 0);

    assert!(!w.is_shadowed(&p, &w.lights[0]));
}

#[test]
fn the_shadow_when_an_object_is_between_the_point_and_the_light() {
    let w = World::default();
    let p = Tuple::point(fx(10.0), fx(-10.0), fx(10.0));

    assert!(w.is_shadowed(&p, &w.lights[0]));
}

#[test]
fn there_is_no_shadow_when_an_object_is_behind_the_light() {
    let w = World::default();
    let p = Tuple::point(fx(-20.0), fx(20.0), fx(-20.0));

    assert!(!w.is_shadowed(&p, &w.lights[0]));
}

#[test]
fn there_is_no_shadow_when_an_object_is_behind_the_point() {
    let w = World::default();
    let p = Tuple::point(fx(-2.0), fx(2.0), fx(-2.0));

    assert!(!w.is_shadowed(&p, &w.lights[0]));
}

#[test]
fn shade_hit_is_given_an_intersection_in_shadow() {
    let light = PointLight::new(
        Tuple::point(0, 0, fx(-10.0)),
        Tuple::color(fx(1.0), fx(1.0), fx(1.0)),
    );
    let s1 = Shape::sphere();
    let mut s2 = Shape::sphere();
    assert!(s2.set_transform(Transformation::translation(0, 0, fx(10.0))));
    let w = World::with_objects_and_light(vec![s1, s2], light);
    let r = Ray::new(Tuple::point(0, 0, fx(5.0)), Tuple::vector(0, 0, fx(1.0)));
    let i = Intersection::new(fx(4.0), 1);

    let comps = Computations::prepare(&i, &r, &w.objects[1]);
    let c = w.shade_hit(&comps);

    assert_eq!(c, Tuple::color(fx(0.1), fx(0.1), fx(0.1)));
}
