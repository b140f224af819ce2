use image::{Rgba, RgbaImage};
use imageproc::drawing::draw_text_mut;
use placeholder_image::{
    canvas_fits, create_image, draw_centered_text, generate_image, generate_image_with_size,
    generate_image_without_text, parse_size, Canvas, Color, ContentType, GlyphScale, PixelBox,
    RequestError,
};
use rusttype::{point, Font, Scale};

fn be16(out: &mut Vec<u8>, values: &[i32]) {
    for v in values {
        out.extend_from_slice(&(*v as u16).to_be_bytes());
    }
}

/// A typeface of one shape: every visible ASCII character is the same upright
/// bar, 384 units wide and 640 high, on a line 1024 units high of which 768 are
/// above the baseline. The space, and every other character, has no ink.
fn bar_font() -> Font<'static> {
    let mut head = Vec::new();
    be16(&mut head, &[1, 0, 1, 0, 0, 0, 0x5f0f, 0x3cf5, 0, 1024]);
    head.extend_from_slice(&[0; 16]);
    be16(&mut head, &[0, 0, 512, 640, 0, 8, 2, 0, 0]);

    let mut hhea = Vec::new();
    be16(&mut hhea, &[1, 0, 768, -256, 0, 640, 0, 0, 512, 1, 0, 0, 0, 0, 0, 0, 0, 2]);

    let mut maxp = Vec::new();
    be16(&mut maxp, &[0, 0x5000, 2]);

    let mut hmtx = Vec::new();
    be16(&mut hmtx, &[640, 0, 640, 128]);

    let mut cmap = Vec::new();
    be16(&mut cmap, &[0, 1, 0, 3, 0, 12, 0, 262, 0]);
    cmap.extend((0u32..256).map(|code| u8::from((0x21..=0x7e).contains(&code))));

    let mut glyf = Vec::new();
    be16(&mut glyf, &[1, 128, 0, 512, 640, 3, 0]);
    glyf.extend_from_slice(&[1, 1, 1, 1]);
    be16(&mut glyf, &[128, 0, 384, 0]);
    be16(&mut glyf, &[0, 640, 0, -640]);

    let mut loca = Vec::new();
    be16(&mut loca, &[0, 0, (glyf.len() / 2) as i32]);

    let tables: [(&[u8; 4], Vec<u8>); 7] = [
        (b"cmap", cmap),
        (b"glyf", glyf),
        (b"head", head),
        (b"hhea", hhea),
        (b"hmtx", hmtx),
        (b"loca", loca),
        (b"maxp", maxp),
    ];
    let mut file = Vec::new();
    be16(&mut file, &[1, 0, 7, 64, 2, 48]);
    let mut offset = 12 + 16 * tables.len();
    for (tag, data) in &tables {
        file.extend_from_slice(*tag);
        file.extend_from_slice(&[0; 4]);
        file.extend_from_slice(&(offset as u32).to_be_bytes());
        file.extend_from_slice(&(data.len() as u32).to_be_bytes());
        offset += (data.len() + 3) / 4 * 4;
    }
    for (_, data) in &tables {
        file.extend_from_slice(data);
        file.resize((file.len() + 3) / 4 * 4, 0);
    }
    Font::try_from_vec(file).unwrap()
}

fn scale_of(scale: GlyphScale) -> Scale {
    Scale::uniform(scale.numerator as f32 / scale.denominator as f32)
}

fn glyph_boxes(font: &Font<'static>, caption: &str, scale: GlyphScale) -> Vec<Option<PixelBox>> {
    let scale = scale_of(scale);
    let ascent = font.v_metrics(scale).ascent;
    font.layout(caption, scale, point(0.0, ascent))
        .map(|glyph| {
            glyph.pixel_bounding_box().map(|b| PixelBox {
                min_x: b.min.x,
                min_y: b.min.y,
                max_x: b.max.x,
                max_y: b.max.y,
            })
        })
        .collect()
}

fn draw_text(
    font: &Font<'static>,
    canvas: Canvas,
    text: &str,
    color: Color,
    x: i32,
    y: i32,
    scale: GlyphScale,
) -> Canvas {
    let (width, height) = canvas.dimensions();
    let mut image = RgbaImage::from_raw(width, height, canvas.into_samples()).unwrap();
    let Color { r, g, b, a } = color;
    draw_text_mut(&mut image, Rgba([r, g, b, a]), x, y, scale_of(scale), font, text);
    Canvas::from_samples(width, height, image.into_raw()).unwrap()
}

fn render(
    size: &str,
    bg_color: Option<&str>,
    fg_color: Option<&str>,
    text: Option<&str>,
) -> Result<Vec<u8>, RequestError> {
    let font = bar_font();
    if let Ok((width, height)) = parse_size(size) {
        assert!(canvas_fits(width, height));
    }
    create_image(
        size,
        bg_color,
        fg_color,
        text,
        |text: &str, scale: GlyphScale| glyph_boxes(&font, text, scale),
        |canvas: Canvas, text: &str, color: Color, x: i32, y: i32, scale: GlyphScale| {
            draw_text(&font, canvas, text, color, x, y, scale)
        },
    )
}

fn decode(file: &[u8]) -> RgbaImage {
    image::load_from_memory_with_format(file, image::ImageFormat::Png)
        .unwrap()
        .to_rgba8()
}

/// The smallest box around the pixels that differ from `background`.
fn ink_box(image: &RgbaImage, background: [u8; 4]) -> Option<(u32, u32, u32, u32)> {
    let mut found: Option<(u32, u32, u32, u32)> = None;
    for (x, y, pixel) in image.enumerate_pixels() {
        if pixel.0 != background {
            found = Some(match found {
                None => (x, y, x + 1, y + 1),
                Some((x0, y0, x1, y1)) => (x0.min(x), y0.min(y), x1.max(x + 1), y1.max(y + 1)),
            });
        }
    }
    found
}

#[test]
fn the_bar_font_lays_out_on_whole_pixels() {
    let font = bar_font();
    let glyphs = glyph_boxes(&font, "H i", GlyphScale { numerator: 768, denominator: 6 });
    assert_eq!(
        glyphs,
        vec![
            Some(PixelBox { min_x: 16, min_y: 16, max_x: 64, max_y: 96 }),
            None,
            Some(PixelBox { min_x: 176, min_y: 16, max_x: 224, max_y: 96 }),
        ]
    );
}

#[test]
fn a_caption_is_drawn_in_the_middle() {
    let file = render("768", Some("cccccc"), Some("000000"), Some("Hi")).unwrap();
    let image = decode(&file);
    assert_eq!(image.dimensions(), (768, 768));
    assert_eq!(ink_box(&image, [204, 204, 204, 255]), Some((320, 344, 448, 424)));
    let ink = [0, 0, 0, 255];
    let paper = [204, 204, 204, 255];
    assert_eq!(image.get_pixel(320, 344).0, ink);
    assert_eq!(image.get_pixel(367, 423).0, ink);
    assert_eq!(image.get_pixel(400, 380).0, ink);
    assert_eq!(image.get_pixel(447, 423).0, ink);
    assert_eq!(image.get_pixel(368, 380).0, paper);
    assert_eq!(image.get_pixel(399, 380).0, paper);
    assert_eq!(image.get_pixel(319, 380).0, paper);
    assert_eq!(image.get_pixel(448, 380).0, paper);
    assert_eq!(image.get_pixel(330, 343).0, paper);
    assert_eq!(image.get_pixel(330, 424).0, paper);
    assert_eq!(image.get_pixel(0, 0).0, paper);
    assert_eq!(image.get_pixel(767, 767).0, paper);
}

#[test]
fn without_text_the_size_is_the_caption() {
    let file = render("768", None, None, None).unwrap();
    let image = decode(&file);
    assert_eq!(image.dimensions(), (768, 768));
    assert_eq!(ink_box(&image, [240, 240, 240, 255]), Some((120, 344, 648, 424)));
    assert_eq!(image.get_pixel(120, 344).0, [0, 0, 0, 255]);
    assert_eq!(image.get_pixel(0, 0).0, [240, 240, 240, 255]);
    let bars = (0..768)
        .filter(|x| image.get_pixel(*x, 380).0 == [0, 0, 0, 255])
        .count();
    assert_eq!(bars, 7 * 48);
}

#[test]
fn a_rectangle_is_captioned_with_width_and_height() {
    let file = render("1536x768", None, None, None).unwrap();
    let image = decode(&file);
    assert_eq!(image.dimensions(), (1536, 768));
    assert_eq!(ink_box(&image, [240, 240, 240, 255]), Some((464, 344, 1072, 424)));
}

#[test]
fn ink_takes_the_foreground_and_the_rest_the_background() {
    let file = render("100", Some("ff0000"), Some("00ff00"), None).unwrap();
    let image = decode(&file);
    assert_eq!(image.dimensions(), (100, 100));
    for corner in [(0, 0), (99, 0), (0, 99), (99, 99), (50, 2), (2, 50)] {
        assert_eq!(image.get_pixel(corner.0, corner.1).0, [255, 0, 0, 255]);
    }
    let full_ink = image.pixels().filter(|p| p.0 == [0, 255, 0, 255]).count();
    assert!(full_ink > 0);
    for pixel in image.pixels() {
        let [r, g, b, a] = pixel.0;
        assert_eq!(b, 0);
        assert!(a >= 254);
        assert!((254..=255).contains(&(r as u32 + g as u32)));
    }
    let (x0, y0, x1, y1) = ink_box(&image, [255, 0, 0, 255]).unwrap();
    assert!((x0 as i64 - (100 - x1 as i64)).abs() <= 1);
    assert!((y0 as i64 - (100 - y1 as i64)).abs() <= 1);
}

#[test]
fn the_caption_of_the_example_is_centred() {
    let file = render("200", Some("cccccc"), Some("000000"), Some("Hi")).unwrap();
    let image = decode(&file);
    assert_eq!(image.dimensions(), (200, 200));
    let (x0, y0, x1, y1) = ink_box(&image, [204, 204, 204, 255]).unwrap();
    assert!((x0 as i64 - (200 - x1 as i64)).abs() <= 1);
    assert!((y0 as i64 - (200 - y1 as i64)).abs() <= 1);
    assert!(x1 - x0 < 200 && y1 - y0 < 200);
}

#[test]
fn a_caption_without_ink_leaves_the_background() {
    let file = render("60x40", Some("123456"), Some("ffffff"), Some("   ")).unwrap();
    let image = decode(&file);
    assert!(image.pixels().all(|p| p.0 == [0x12, 0x34, 0x56, 255]));
    let file = render("60x40", Some("123456"), Some("ffffff"), Some("")).unwrap();
    let image = decode(&file);
    assert!(image.pixels().all(|p| p.0 == [0x12, 0x34, 0x56, 255]));
}

#[test]
fn a_caption_too_long_starts_at_the_left_edge() {
    let file = render("96x768", Some("ffffff"), Some("000000"), Some("HHHH")).unwrap();
    let image = decode(&file);
    assert_eq!(image.dimensions(), (96, 768));
    assert_eq!(image.get_pixel(0, 380).0, [0, 0, 0, 255]);
    assert_eq!(image.get_pixel(47, 380).0, [0, 0, 0, 255]);
    assert_eq!(image.get_pixel(48, 380).0, [255, 255, 255, 255]);
    assert_eq!(image.get_pixel(80, 380).0, [0, 0, 0, 255]);
    assert_eq!(ink_box(&image, [255, 255, 255, 255]), Some((0, 344, 96, 424)));
}

#[test]
fn the_same_request_gives_the_same_file() {
    let first = render("320x200", Some("336699"), Some("ffffff"), Some("again")).unwrap();
    let second = render("320x200", Some("336699"), Some("ffffff"), Some("again")).unwrap();
    assert_eq!(first, second);
    let first = render("200", None, None, None).unwrap();
    let second = render("200", None, None, None).unwrap();
    assert_eq!(first, second);
}

#[test]
fn malformed_requests_give_no_file() {
    assert_eq!(render("abc", None, None, None), Err(RequestError::InvalidSize));
    assert_eq!(
        render("100", Some("zzzzzz"), Some("000000"), None),
        Err(RequestError::InvalidColor)
    );
    assert_eq!(render("0", None, None, None), Err(RequestError::InvalidSize));
    assert_eq!(render("0x5", None, None, Some("Hi")), Err(RequestError::InvalidSize));
    assert_eq!(render("5x0", None, None, Some("Hi")), Err(RequestError::InvalidSize));
}

#[test]
fn the_caption_never_decides_whether_an_image_is_made() {
    let long = "a caption much longer than any canvas here is wide, with spaces and ~marks~";
    for text in [None, Some(""), Some(" "), Some("Hi"), Some(long), Some("gr\u{fc}\u{df}")] {
        for size in ["1", "2x1", "1x2", "7", "40x30", "300x6"] {
            let file = render(size, None, None, text).unwrap();
            let plain = render(size, None, None, None).unwrap();
            assert_eq!(decode(&file).dimensions(), decode(&plain).dimensions());
        }
        assert_eq!(render("abc", None, None, text), Err(RequestError::InvalidSize));
        assert_eq!(
            render("10", Some("zzzzzz"), None, text),
            Err(RequestError::InvalidColor)
        );
    }
}

#[test]
fn leaving_the_text_out_draws_the_size() {
    assert_eq!(
        render("200", None, None, None),
        render("200", None, None, Some("200x200"))
    );
    assert_eq!(
        render("007", Some("123456"), Some("abcdef"), None),
        render("007", Some("123456"), Some("abcdef"), Some("7x7"))
    );
    assert_eq!(
        render("320x200", None, None, None),
        render("320x200", None, None, Some("320x200"))
    );
    assert_eq!(
        render("0768", None, None, None),
        render("0768", None, None, Some("768x768"))
    );
    assert_ne!(
        render("0768", None, None, None),
        render("0768", None, None, Some("0768"))
    );
}

#[test]
fn leaving_the_colours_out_draws_gray_and_black() {
    assert_eq!(
        render("200", None, None, Some("Hi")),
        render("200", Some("f0f0f0"), Some("000000"), Some("Hi"))
    );
    assert_eq!(
        render("64x32", None, Some("ff0000"), None),
        render("64x32", Some("F0F0F0"), Some("ff0000"), None)
    );
}

#[test]
fn text_is_drawn_centred_on_any_canvas() {
    let font = bar_font();
    let canvas = Canvas::from_samples(1536, 768, vec![255; 1536 * 768 * 4]).unwrap();
    let drawn = draw_centered_text(
        canvas,
        "Hi",
        Color { r: 10, g: 20, b: 30, a: 255 },
        |text: &str, scale: GlyphScale| glyph_boxes(&font, text, scale),
        |canvas: Canvas, text: &str, color: Color, x: i32, y: i32, scale: GlyphScale| {
            draw_text(&font, canvas, text, color, x, y, scale)
        },
    )
    .unwrap();
    assert_eq!(drawn.dimensions(), (1536, 768));
    let image = RgbaImage::from_raw(1536, 768, drawn.into_samples()).unwrap();
    assert_eq!(ink_box(&image, [255; 4]), Some((704, 344, 832, 424)));
    assert_eq!(image.get_pixel(704, 344).0, [10, 20, 30, 255]);
}

#[test]
fn each_route_answers_with_its_image() {
    let font = bar_font();
    let response = generate_image_with_size(
        "768",
        |text: &str, scale: GlyphScale| glyph_boxes(&font, text, scale),
        |canvas: Canvas, text: &str, color: Color, x: i32, y: i32, scale: GlyphScale| {
            draw_text(&font, canvas, text, color, x, y, scale)
        },
    );
    assert_eq!(response.status, 200);
    assert_eq!(response.content_type, ContentType::Png);
    assert_eq!(response.body, render("768", None, None, None).unwrap());

    let response = generate_image_without_text(
        "768x384",
        "ff0000",
        "00ff00",
        |text: &str, scale: GlyphScale| glyph_boxes(&font, text, scale),
        |canvas: Canvas, text: &str, color: Color, x: i32, y: i32, scale: GlyphScale| {
            draw_text(&font, canvas, text, color, x, y, scale)
        },
    );
    assert_eq!(response.status, 200);
    assert_eq!(response.content_type, ContentType::Png);
    assert_eq!(
        response.body,
        render("768x384", Some("ff0000"), Some("00ff00"), None).unwrap()
    );
    let image = decode(&response.body);
    assert_eq!(image.dimensions(), (768, 384));
    assert_eq!(image.get_pixel(0, 0).0, [255, 0, 0, 255]);

    let response = generate_image(
        "768",
        "cccccc",
        "000000",
        "Hi",
        |text: &str, scale: GlyphScale| glyph_boxes(&font, text, scale),
        |canvas: Canvas, text: &str, color: Color, x: i32, y: i32, scale: GlyphScale| {
            draw_text(&font, canvas, text, color, x, y, scale)
        },
    );
    assert_eq!(response.status, 200);
    assert_eq!(response.content_type, ContentType::Png);
    assert_eq!(
        response.body,
        render("768", Some("cccccc"), Some("000000"), Some("Hi")).unwrap()
    );
}
