use vstd::prelude::*;
use crate::color::Color;
use crate::error::RequestError;

verus! {

/// An RGBA bitmap: an `image::RgbaImage` that always holds exactly four samples
/// for each of its pixels.
///
/// The verifier cannot be told of `image::ImageBuffer` itself, whose pixel
/// parameter is bound by a trait of that crate, so it sees nothing of this
/// struct's field. What it knows of a canvas it knows from `canvas_size` and
/// `canvas_pixels`, and of those from the contracts of the functions below that
/// call into the buffer.
#[verifier::external_body]
pub struct Canvas {
    image: image::RgbaImage,
}

/// `image::ImageError`, the error of the encoder. Nothing is known of its values.
#[verifier::external_type_specification]
#[verifier::external_body]
pub struct ExImageError(image::ImageError);

/// Width and height of a canvas, in pixels.
pub uninterp spec fn canvas_size(canvas: Canvas) -> (nat, nat);

/// The pixels of a canvas, row by row from the top, each row from the left.
pub uninterp spec fn canvas_pixels(canvas: Canvas) -> Seq<Color>;

/// The PNG file that the encoder writes for a bitmap of the given size and
/// pixels, or `None` where it writes none.
pub uninterp spec fn png_encoding(width: nat, height: nat, pixels: Seq<Color>) -> Option<Seq<u8>>;

/// The colour of every pixel of a fresh buffer: all four channels zero.
pub open spec fn transparent_black() -> Color {
    Color { r: 0, g: 0, b: 0, a: 0 }
}

/// Whether the samples of one row of `width` pixels, four to the pixel, can be
/// counted in a `usize`.
pub open spec fn row_fits(width: u32) -> bool {
    4 * width <= usize::MAX
}

/// Whether a buffer for `width` by `height` pixels, four bytes each, can be
/// allocated: the samples of a row can be counted, and those of all rows are no
/// more than a vector holds.
pub open spec fn fits_memory(width: u32, height: u32) -> bool {
    row_fits(width) && 4 * width * height <= isize::MAX
}

/// Whether a size holds a pixel: it is at least 1 wide and at least 1 high.
pub open spec fn has_area(size: (nat, nat)) -> bool {
    size.0 >= 1 && size.1 >= 1
}

/// Channel `k` of a colour, in the order red, green, blue, alpha.
pub open spec fn channel(color: Color, k: int) -> u8 {
    if k == 0 {
        color.r
    } else if k == 1 {
        color.g
    } else if k == 2 {
        color.b
    } else {
        color.a
    }
}

/// The samples of a run of pixels: four bytes for each, red first.
pub open spec fn samples_of(pixels: Seq<Color>) -> Seq<u8> {
    Seq::new(4 * pixels.len(), |i: int| channel(pixels[i / 4], i % 4))
}

/// `ImageBuffer::new`: a buffer of the given size whose samples are all zero.
/// It counts the samples as four times the width, times the height, and panics
/// where either product is more than a `usize` or the whole is more than a vector
/// can hold; the precondition leaves all of that out.
#[verifier::external_body]
fn new_buffer(width: u32, height: u32) -> (canvas: Canvas)
    requires
        fits_memory(width, height),
    ensures
        canvas_size(canvas) == (width as nat, height as nat),
        canvas_pixels(canvas) == Seq::new((width * height) as nat, |i: int| transparent_black()),
{
    Canvas { image: image::ImageBuffer::new(width, height) }
}

/// `ImageBuffer::put_pixel`: overwrites the pixel in column `x` of row `y` and
/// leaves the rest as it was. It panics outside the bitmap, which the
/// precondition leaves out.
#[verifier::external_body]
fn put_pixel(canvas: &mut Canvas, x: u32, y: u32, color: Color)
    requires
        x < canvas_size(*old(canvas)).0,
        y < canvas_size(*old(canvas)).1,
    ensures
        canvas_size(*final(canvas)) == canvas_size(*old(canvas)),
        canvas_pixels(*final(canvas)) == canvas_pixels(*old(canvas)).update(
            y * canvas_size(*old(canvas)).0 + x,
            color,
        ),
{
    canvas.image.put_pixel(x, y, image::Rgba([color.r, color.g, color.b, color.a]))
}

/// `ImageBuffer::dimensions`: width and height.
#[verifier::external_body]
fn buffer_dimensions(canvas: &Canvas) -> (size: (u32, u32))
    ensures
        canvas_size(*canvas) == (size.0 as nat, size.1 as nat),
{
    canvas.image.dimensions()
}

/// `ImageBuffer::write_to` with `ImageFormat::Png`, into a vector: the PNG file
/// of the bitmap, or the encoder's error. The encoder refuses a bitmap without
/// width or without height and, writing eight-bit RGBA into memory, has nothing
/// else to refuse; so a file comes exactly where both are at least 1. Every byte
/// of the file depends on the bitmap's size and pixels alone: that function is
/// `png_encoding`, of which nothing more is claimed.
#[verifier::external_body]
fn write_png(canvas: &Canvas) -> (file: Result<Vec<u8>, image::ImageError>)
    ensures
        file is Ok <==> has_area(canvas_size(*canvas)),
        match file {
            Ok(bytes) => png_encoding(
                canvas_size(*canvas).0,
                canvas_size(*canvas).1,
                canvas_pixels(*canvas),
            ) == Some(bytes@),
            Err(_) => png_encoding(
                canvas_size(*canvas).0,
                canvas_size(*canvas).1,
                canvas_pixels(*canvas),
            ) is None,
        },
{
    let mut bytes = Vec::new();
    canvas.image.write_to(&mut std::io::Cursor::new(&mut bytes), image::ImageFormat::Png)?;
    Ok(bytes)
}

/// `ImageBuffer::into_raw`: the buffer's samples, four for each pixel in the
/// order red, green, blue, alpha, the pixels row by row.
#[verifier::external_body]
fn into_raw(canvas: Canvas) -> (data: Vec<u8>)
    ensures
        data@ == samples_of(canvas_pixels(canvas)),
{
    canvas.image.into_raw()
}

/// `ImageBuffer::from_raw`: the buffer of the given size over the given samples.
/// It counts the samples as `ImageBuffer::new` does and gives `None` where a
/// product is more than a `usize` or the samples are too few; where a row can be
/// counted and the samples are exactly four for each pixel, as the precondition
/// asks, it gives the buffer.
#[verifier::external_body]
fn from_raw(width: u32, height: u32, data: Vec<u8>) -> (canvas: Option<Canvas>)
    requires
        row_fits(width),
        data.len() == 4 * width * height,
    ensures
        canvas is Some,
        canvas_size(canvas->0) == (width as nat, height as nat),
        canvas_pixels(canvas->0).len() == width * height,
        samples_of(canvas_pixels(canvas->0)) == data@,
{
    image::ImageBuffer::from_raw(width, height, data).map(|image| Canvas { image })
}

/// The number of samples in a bitmap of `width` by `height` pixels.
fn sample_count(width: u32, height: u32) -> (count: u128)
    ensures
        count == 4 * width * height,
{
    assert(width * height <= 0xffff_ffff * 0xffff_ffff) by (nonlinear_arith)
        requires
            width <= 0xffff_ffff,
            height <= 0xffff_ffff,
    ;
    assert(4 * (width * height) == 4 * width * height) by (nonlinear_arith);
    let area: u64 = width as u64 * height as u64;
    4 * (area as u128)
}

/// Whether the samples of one row of `width` pixels can be counted in a `usize`.
fn row_can_be_counted(width: u32) -> (fits: bool)
    ensures
        fits == row_fits(width),
{
    4 * (width as u128) <= usize::MAX as u128
}

/// Whether a canvas of `width` by `height` pixels can be allocated.
pub fn canvas_fits(width: u32, height: u32) -> (fits: bool)
    ensures
        fits == fits_memory(width, height),
{
    row_can_be_counted(width) && sample_count(width, height) <= isize::MAX as u128
}

impl Canvas {
    /// Width in pixels.
    pub open spec fn width(&self) -> nat {
        canvas_size(*self).0
    }

    /// Height in pixels.
    pub open spec fn height(&self) -> nat {
        canvas_size(*self).1
    }

    /// The pixels, row by row from the top, each row from the left.
    pub open spec fn pixels(&self) -> Seq<Color> {
        canvas_pixels(*self)
    }

    /// Whether two canvases show the same picture: one size, and pixel for pixel
    /// one colour.
    pub open spec fn same_picture(&self, other: Canvas) -> bool {
        &&& self.width() == other.width()
        &&& self.height() == other.height()
        &&& self.pixels() == other.pixels()
    }

    /// A canvas holds one pixel for each place in its rectangle.
    pub open spec fn wf(&self) -> bool {
        self.pixels().len() == self.width() * self.height()
    }

    /// A canvas of the given size with every pixel set to `color`.
    pub fn filled(width: u32, height: u32, color: Color) -> (canvas: Canvas)
        requires
            fits_memory(width, height),
        ensures
            canvas.wf(),
            canvas.width() == width,
            canvas.height() == height,
            canvas.pixels() == Seq::new((width * height) as nat, |i: int| color),
    {
        let mut canvas = new_buffer(width, height);
        let mut y: u32 = 0;
        while y < height
            invariant
                y <= height,
                canvas.width() == width,
                canvas.height() == height,
                canvas.pixels().len() == width * height,
                forall|i: int| 0 <= i < y * width ==> canvas.pixels()[i] == color,
            decreases height - y,
        {
            let mut x: u32 = 0;
            while x < width
                invariant
                    y < height,
                    x <= width,
                    canvas.width() == width,
                    canvas.height() == height,
                    canvas.pixels().len() == width * height,
                    forall|i: int| 0 <= i < y * width + x ==> canvas.pixels()[i] == color,
                decreases width - x,
            {
                assert(y * width + x < width * height) by (nonlinear_arith)
                    requires
                        x < width,
                        y < height,
                ;
                put_pixel(&mut canvas, x, y, color);
                x += 1;
            }
            assert((y + 1) * width == y * width + width) by (nonlinear_arith);
            y += 1;
        }
        canvas
    }

    /// Width and height, in pixels.
    pub fn dimensions(&self) -> (size: (u32, u32))
        ensures
            size.0 == self.width(),
            size.1 == self.height(),
    {
        buffer_dimensions(self)
    }

    /// Whether this canvas has a pixel: it is at least 1 wide and at least 1 high.
    pub open spec fn has_pixels(&self) -> bool {
        has_area(canvas_size(*self))
    }

    /// Whether `file` is the outcome of encoding this canvas: the PNG file that
    /// the encoder writes for its size and pixels, which it does exactly where
    /// the canvas has a pixel, or an error where it writes none.
    pub open spec fn encodes_to(&self, file: Result<Vec<u8>, RequestError>) -> bool {
        &&& file is Ok <==> self.has_pixels()
        &&& match png_encoding(self.width(), self.height(), self.pixels()) {
            Some(bytes) => file matches Ok(written) && written@ == bytes,
            None => file == Err::<Vec<u8>, RequestError>(RequestError::Encoding),
        }
    }

    /// The PNG file of this canvas.
    pub fn encode_png(&self) -> (file: Result<Vec<u8>, RequestError>)
        ensures
            self.encodes_to(file),
    {
        match write_png(self) {
            Ok(bytes) => Ok(bytes),
            Err(_) => Err(RequestError::Encoding),
        }
    }

    /// Gives up the canvas for its samples: four bytes for each pixel, row by row.
    pub fn into_samples(self) -> (data: Vec<u8>)
        ensures
            data@ == samples_of(self.pixels()),
    {
        into_raw(self)
    }

    /// The canvas of the given size over `data`, where the samples of a row can
    /// be counted and `data` holds exactly four bytes for each pixel.
    pub fn from_samples(width: u32, height: u32, data: Vec<u8>) -> (canvas: Option<Canvas>)
        ensures
            canvas is Some <==> row_fits(width) && data.len() == 4 * width * height,
            canvas matches Some(c) ==> c.wf() && c.width() == width && c.height() == height
                && samples_of(c.pixels()) == data@,
    {
        if row_can_be_counted(width) && data.len() as u128 == sample_count(width, height) {
            from_raw(width, height, data)
        } else {
            None
        }
    }
}

/// Encoding is repeatable: canvases that show the same picture encode to the
/// same bytes, or both to none.
pub proof fn lemma_encoding_repeatable(
    a: Canvas,
    b: Canvas,
    file_a: Result<Vec<u8>, RequestError>,
    file_b: Result<Vec<u8>, RequestError>,
)
    requires
        a.same_picture(b),
        a.encodes_to(file_a),
        b.encodes_to(file_b),
    ensures
        file_a is Ok <==> file_b is Ok,
        file_a is Ok ==> file_a->Ok_0@ == file_b->Ok_0@,
        file_a is Err ==> file_a->Err_0 == file_b->Err_0,
{
}

} // verus!
