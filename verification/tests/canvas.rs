use raytracer::canvas::Canvas;
use raytracer::tuples::Tuple;

fn fx(v: f64) -> i128 {
    (v * 1_000_000_000f64).round() as i128
}

#[test]
fn creating_canvas() {
    let width = 10;
    let height = 20;
    let c = Canvas::new(width, height);
    for x in 0..width {
        for y in 0..height {
            assert_eq!(c.pixel_at(x, y), Tuple::color(0, 0, 0));
        }
    }
}

#[test]
fn writing_pixels() {
    let mut c = Canvas::new(10, 20);
    let red = Tuple::color(fx(1.0), 0, 0);
    c.write_pixel(2, 3, red);
    assert_eq!(c.pixel_at(2, 3), red);
}

#[test]
fn constructing_ppm_header() {
    let c = Canvas::new(5, 3);
    let ppm = c.to_ppm();
    let header_lines: Vec<&str> = ppm.lines().take(3).collect();
    assert_eq!(header_lines, vec!["P3", "5 3", "255"]);
}

#[test]
fn construsting_ppm_pixel_data() {
    let mut c = Canvas::new(5, 3);
    let c1 = Tuple::color(fx(1.5), 0, 0);
    let c2 = Tuple::color(0, fx(0.5), 0);
    let c3 = Tuple::color(fx(-0.5), 0, fx(1.0));

    c.write_pixel(0, 0, c1);
    c.write_pixel(2, 1, c2);
    c.write_pixel(4, 2, c3);
    let ppm = c.to_ppm();

    let pixels_lines: Vec<&str> = ppm.lines().skip(3).take(3).collect();
    assert_eq!(
        pixels_lines,
        vec![
            "255 0 0 0 0 0 0 0 0 0 0 0 0 0 0",
            "0 0 0 0 0 0 0 128 0 0 0 0 0 0 0",
            "0 0 0 0 0 0 0 0 0 0 0 0 0 0 255"
        ]
    );
}

#[test]
fn splitting_long_lines_in_ppm_files() {
    let mut c = Canvas::new(10, 2);
    for x in 0..10 {
        for y in 0..2 {
            c.write_pixel(x, y, Tuple::color(fx(1.0), fx(0.8), fx(0.6)))
        }
    }

    let ppm = c.to_ppm();

    let pixels_lines: Vec<&str> = ppm.lines().skip(3).take(4).collect();
    assert_eq!(
        pixels_lines,
        vec![
            "255 204 153 255 204 153 255 204 153 255 204 153 255 204 153 255 204",
            "153 255 204 153 255 204 153 255 204 153 255 204 153",
            "255 204 153 255 204 153 255 204 153 255 204 153 255 204 153 255 204",
            "153 255 204 153 255 204 153 255 204 153 255 204 153"
        ]
    );
}

#[test]
fn ppm_files_are_terminated_by_newline_character() {
    let c = Canvas::new(5, 3);
    let ppm = c.to_ppm();
    assert_eq!(ppm.chars().last().unwrap(), '\n');
}

#[test]
fn convert_to_u8_array() {
    let mut c = Canvas::new(3, 2);
    c.write_pixel(0, 0, Tuple::color(fx(1.0), 0, 0));
    c.write_pixel(1, 0, Tuple::color(0, fx(1.0), 0));
    c.write_pixel(2, 0, Tuple::color(fx(1.0), fx(1.0), fx(1.0)));
    c.write_pixel(0, 1, Tuple::color(0, 0, fx(1.0)));
    c.write_pixel(1, 1, Tuple::color(fx(1.0), fx(1.0), 0));
    c.write_pixel(2, 1, Tuple::color(0, 0, 0));

    let data = c.to_rgb_vec();

    assert_eq!(
        data,
        vec![255, 0, 0, 0, 255, 0, 255, 255, 255, 0, 0, 255, 255, 255, 0, 0, 0, 0]
    );
}
