use raytracer::lights::PointLight;
use raytracer::tuples::Tuple;

fn fx(v: f64) -> i128 {
    (v * 1_000_000_000f64).round() as i128
}

#[test]
fn a_point_light_has_a_position_and_intensity() {
    let intensity = Tuple::color(fx(1.0), fx(1.0), fx(1.0));
    let position = Tuple::point(0, 0, 0);

    let light = PointLight::new(position, intensity);

    assert_eq!(light.position, position);
    assert_eq!(light.intensity, intensity)
}
