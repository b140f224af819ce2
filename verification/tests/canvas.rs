use placeholder_image::{canvas_fits, Canvas, Color, RequestError};

const RED: Color = Color { r: 255, g: 0, b: 0, a: 255 };
const TEAL: Color = Color { r: 0, g: 128, b: 128, a: 200 };

fn decode(file: &[u8]) -> image::RgbaImage {
    image::load_from_memory_with_format(file, image::ImageFormat::Png)
        .unwrap()
        .to_rgba8()
}

#[test]
fn a_filled_canvas_has_the_size_asked_for() {
    assert_eq!(Canvas::filled(3, 2, RED).dimensions(), (3, 2));
    assert_eq!(Canvas::filled(1, 7, RED).dimensions(), (1, 7));
    assert_eq!(Canvas::filled(0, 0, RED).dimensions(), (0, 0));
}

#[test]
fn a_filled_canvas_is_of_one_colour() {
    let samples = Canvas::filled(3, 2, TEAL).into_samples();
    assert_eq!(samples.len(), 3 * 2 * 4);
    for pixel in samples.chunks(4) {
        assert_eq!(pixel, [0, 128, 128, 200]);
    }
}

#[test]
fn an_empty_canvas_has_no_samples() {
    assert_eq!(Canvas::filled(0, 5, RED).into_samples(), Vec::<u8>::new());
    assert_eq!(Canvas::filled(5, 0, RED).into_samples(), Vec::<u8>::new());
}

#[test]
fn samples_run_row_by_row() {
    let data: Vec<u8> = (0u8..24).collect();
    let canvas = Canvas::from_samples(3, 2, data.clone()).unwrap();
    assert_eq!(canvas.dimensions(), (3, 2));
    let decoded = decode(&canvas.encode_png().unwrap());
    assert_eq!(decoded.get_pixel(0, 0).0, [0, 1, 2, 3]);
    assert_eq!(decoded.get_pixel(2, 0).0, [8, 9, 10, 11]);
    assert_eq!(decoded.get_pixel(0, 1).0, [12, 13, 14, 15]);
    assert_eq!(decoded.get_pixel(2, 1).0, [20, 21, 22, 23]);
    assert_eq!(canvas.into_samples(), data);
}

#[test]
fn samples_must_match_the_size() {
    assert!(Canvas::from_samples(3, 2, vec![0; 23]).is_none());
    assert!(Canvas::from_samples(3, 2, vec![0; 25]).is_none());
    assert!(Canvas::from_samples(3, 2, Vec::new()).is_none());
    assert!(Canvas::from_samples(0, 0, vec![0; 4]).is_none());
    assert!(Canvas::from_samples(0, 9, Vec::new()).is_some());
    assert!(Canvas::from_samples(4294967295, 4294967295, vec![0; 4]).is_none());
}

#[test]
fn a_square_encodes_to_a_png_of_its_size() {
    for side in [1u32, 2, 17, 100] {
        let file = Canvas::filled(side, side, RED).encode_png().unwrap();
        assert_eq!(&file[..8], b"\x89PNG\r\n\x1a\n");
        assert_eq!(decode(&file).dimensions(), (side, side));
    }
}

#[test]
fn a_rectangle_encodes_to_a_png_of_its_size() {
    for (width, height) in [(300u32, 150u32), (150, 300), (1, 64), (64, 1)] {
        let file = Canvas::filled(width, height, RED).encode_png().unwrap();
        assert_eq!(decode(&file).dimensions(), (width, height));
    }
}

#[test]
fn the_png_holds_every_pixel() {
    let file = Canvas::filled(100, 100, RED).encode_png().unwrap();
    let decoded = decode(&file);
    assert!(decoded.pixels().all(|p| p.0 == [255, 0, 0, 255]));
    let file = Canvas::filled(5, 4, TEAL).encode_png().unwrap();
    let decoded = decode(&file);
    assert_eq!(decoded.pixels().count(), 20);
    assert!(decoded.pixels().all(|p| p.0 == [0, 128, 128, 200]));
}

#[test]
fn a_canvas_without_pixels_has_no_png() {
    assert_eq!(
        Canvas::filled(0, 0, RED).encode_png(),
        Err(RequestError::Encoding)
    );
    assert_eq!(
        Canvas::filled(0, 8, RED).encode_png(),
        Err(RequestError::Encoding)
    );
    assert_eq!(
        Canvas::filled(8, 0, RED).encode_png(),
        Err(RequestError::Encoding)
    );
}

#[test]
fn encoding_twice_gives_the_same_bytes() {
    let first = Canvas::filled(40, 30, TEAL).encode_png().unwrap();
    let second = Canvas::filled(40, 30, TEAL).encode_png().unwrap();
    assert_eq!(first, second);
    let canvas = Canvas::from_samples(2, 2, (0u8..16).collect()).unwrap();
    assert_eq!(canvas.encode_png(), canvas.encode_png());
}

#[test]
fn different_pixels_give_different_bytes() {
    let red = Canvas::filled(4, 4, RED).encode_png().unwrap();
    let teal = Canvas::filled(4, 4, TEAL).encode_png().unwrap();
    assert_ne!(red, teal);
}

/// Whether the image crate can count the samples of a canvas and a vector can
/// hold them: four times the width in a `usize`, all of them in an `isize`.
fn countable(width: u32, height: u32) -> bool {
    4 * width as u128 <= usize::MAX as u128
        && 4 * width as u128 * height as u128 <= isize::MAX as u128
}

#[test]
fn a_canvas_without_rows_fits_while_one_row_can_be_counted() {
    for width in [0u32, 1, 1 << 29, (1 << 30) - 1, 1 << 30, 1 << 31, 4294967295] {
        assert_eq!(canvas_fits(width, 0), countable(width, 0));
        assert_eq!(canvas_fits(width, 0), 4 * width as u128 <= usize::MAX as u128);
        assert_eq!(
            Canvas::from_samples(width, 0, Vec::new()).is_some(),
            4 * width as u128 <= usize::MAX as u128
        );
        if canvas_fits(width, 0) {
            assert_eq!(Canvas::filled(width, 0, RED).dimensions(), (width, 0));
        }
    }
    for height in [0u32, 1, 1 << 30, 4294967295] {
        assert!(canvas_fits(0, height));
        assert!(Canvas::from_samples(0, height, Vec::new()).is_some());
    }
    assert_eq!(Canvas::filled(0, 1 << 16, RED).dimensions(), (0, 1 << 16));
}

#[test]
fn fitting_is_what_the_buffer_can_count() {
    for (width, height) in [
        (1u32, 1u32),
        (200, 200),
        (23170, 23170),
        (23171, 23171),
        (65536, 65536),
        (1 << 30, 1),
        (1 << 30, 2),
        (4294967295, 1),
        (1, 4294967295),
        (4294967295, 4294967295),
    ] {
        assert_eq!(canvas_fits(width, height), countable(width, height));
    }
}

#[test]
fn a_canvas_fits_while_its_samples_can_be_counted() {
    assert!(canvas_fits(0, 0));
    assert!(canvas_fits(200, 200));
    assert_eq!(canvas_fits(4294967295, 1), countable(4294967295, 1));
    assert!(canvas_fits(0, 4294967295));
    assert_eq!(
        canvas_fits(4294967295, 4294967295),
        4u128 * 4294967295 * 4294967295 <= isize::MAX as u128
    );
    assert_eq!(
        canvas_fits(65536, 65536),
        4u128 * 65536 * 65536 <= isize::MAX as u128
    );
    assert_eq!(
        canvas_fits(23171, 23171),
        4u128 * 23171 * 23171 <= isize::MAX as u128
    );
}

#[test]
fn a_plan_starts_as_its_background() {
    let plan = placeholder_image::plan_image("12x5", Some("336699"), Some("ffffff"), None).unwrap();
    assert!(canvas_fits(plan.width, plan.height));
    let canvas = plan.canvas();
    assert_eq!(canvas.dimensions(), (12, 5));
    let samples = canvas.into_samples();
    assert_eq!(samples.len(), 12 * 5 * 4);
    assert!(samples.chunks(4).all(|p| p == [0x33, 0x66, 0x99, 255]));
}
