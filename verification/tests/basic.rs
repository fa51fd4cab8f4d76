use raytracer::scalar::SCALE;

#[test]
fn it_works() {
    assert_eq!(2 + 2, 4);
}

#[test]
fn one_real_unit_is_one_scale() {
    assert_eq!(SCALE, 1_000_000_000);
}
