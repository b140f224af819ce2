use vstd::prelude::*;
use crate::canvas::{fits_memory, lemma_encoding_repeatable, png_encoding, Canvas};
use crate::color::{default_background, default_foreground, Color};
use crate::decimal::decimal_digits;
use crate::error::RequestError;
use crate::layout::{caption_origin_spec, caption_scale, centered_text_origin, GlyphScale, PixelBox};
use crate::plan::{
    color_or, lemma_default_caption, lemma_rect_request, lemma_square_request, plan_image, plan_of, text_of,
    PlanModel,
};
use crate::response::outcome_of;
use crate::size::{size_notation, size_of};

verus! {

/// Whether the typesetter's two operations may be called on every argument.
/// The library calls them with no further precaution: it is for the caller to
/// bring operations that accept whatever text, canvas and point they are handed.
pub open spec fn serves<T, D>(typeset: T, draw: D) -> bool where
    T: Fn(&str, GlyphScale) -> Vec<Option<PixelBox>>,
    D: Fn(Canvas, &str, Color, i32, i32, GlyphScale) -> Canvas,
 {
    &&& forall|text: &str, scale: GlyphScale| call_requires(typeset, (text, scale))
    &&& forall|canvas: Canvas, text: &str, color: Color, x: i32, y: i32, scale: GlyphScale|
        call_requires(draw, (canvas, text, color, x, y, scale))
}

/// Whether `outcome` is what drawing `text` centred on `canvas` comes to, given
/// the typesetter's two operations: `typeset` is asked for the glyph boxes of
/// `text` at the caption's scale; where they place the caption at a drawable
/// point, `draw` is handed the canvas, the text, the colour and that point, and
/// what it returns is the outcome.
pub open spec fn centered_text_drawn<T, D>(
    canvas: Canvas,
    text: &str,
    color: Color,
    typeset: T,
    draw: D,
    outcome: Result<Canvas, RequestError>,
) -> bool where
    T: Fn(&str, GlyphScale) -> Vec<Option<PixelBox>>,
    D: Fn(Canvas, &str, Color, i32, i32, GlyphScale) -> Canvas,
 {
    let scale = caption_scale(canvas.height() as u32);
    exists|glyphs: Vec<Option<PixelBox>>| #[trigger]
        call_ensures(typeset, (text, scale), glyphs) && match caption_origin_spec(
            canvas.width() as int,
            canvas.height() as int,
            glyphs@,
        ) {
            None => outcome == Err::<Canvas, RequestError>(RequestError::CaptionOutOfRange),
            Some((x, y)) => outcome matches Ok(drawn) && call_ensures(
                draw,
                (canvas, text, color, x, y, scale),
                drawn,
            ),
        }
}

/// Draws `text` on `canvas` in `color`, its ink centred.
///
/// `typeset` lays a text out at a scale, from the origin, on a baseline at the
/// font's ascent, and gives the pixel box of each glyph in turn, `None` for one
/// without ink. `draw` draws a text at a scale on a canvas, moved by `(x, y)`.
pub fn draw_centered_text<T, D>(canvas: Canvas, text: &str, color: Color, typeset: T, draw: D) -> (outcome:
    Result<Canvas, RequestError>) where
    T: Fn(&str, GlyphScale) -> Vec<Option<PixelBox>>,
    D: Fn(Canvas, &str, Color, i32, i32, GlyphScale) -> Canvas,

    requires
        serves(typeset, draw),
    ensures
        centered_text_drawn(canvas, text, color, typeset, draw, outcome),
{
    let (_, height) = canvas.dimensions();
    let scale = GlyphScale::for_canvas(height);
    let glyphs = typeset(text, scale);
    match centered_text_origin(&canvas, &glyphs) {
        None => Err(RequestError::CaptionOutOfRange),
        Some((x, y)) => Ok(draw(canvas, text, color, x, y, scale)),
    }
}

/// Whether `canvas` is the canvas of `plan` before its caption is drawn.
pub open spec fn is_blank(canvas: Canvas, plan: PlanModel) -> bool {
    &&& canvas.wf()
    &&& canvas.width() == plan.width
    &&& canvas.height() == plan.height
    &&& canvas.pixels() == Seq::new((plan.width * plan.height) as nat, |i: int| plan.background)
}

/// Whether `file` is what becomes of a well-formed request by way of the blank
/// canvas `blank`, the caption `caption` and the outcome `drawn` of drawing: the
/// canvas is the plan's, the caption is the plan's, the caption was drawn
/// centred on that canvas in the foreground, and `file` is the encoding of what
/// was drawn, or the error that drawing gave.
pub open spec fn created_by_way_of<T, D>(
    plan: PlanModel,
    typeset: T,
    draw: D,
    file: Result<Vec<u8>, RequestError>,
    blank: Canvas,
    caption: &str,
    drawn: Result<Canvas, RequestError>,
) -> bool where
    T: Fn(&str, GlyphScale) -> Vec<Option<PixelBox>>,
    D: Fn(Canvas, &str, Color, i32, i32, GlyphScale) -> Canvas,
 {
    &&& is_blank(blank, plan)
    &&& caption@ == plan.caption
    &&& centered_text_drawn(blank, caption, plan.foreground, typeset, draw, drawn)
    &&& match drawn {
        Ok(canvas) => canvas.encodes_to(file),
        Err(e) => file == Err::<Vec<u8>, RequestError>(e),
    }
}

/// Whether `file` is what making the image of a request comes to: the error of
/// a malformed request; else the outcome of drawing the caption centred, in the
/// foreground, on a canvas of the size asked for and filled with the background,
/// and of encoding what was drawn.
pub open spec fn image_created<T, D>(
    size: Seq<char>,
    bg_color: Option<Seq<char>>,
    fg_color: Option<Seq<char>>,
    text: Option<Seq<char>>,
    typeset: T,
    draw: D,
    file: Result<Vec<u8>, RequestError>,
) -> bool where
    T: Fn(&str, GlyphScale) -> Vec<Option<PixelBox>>,
    D: Fn(Canvas, &str, Color, i32, i32, GlyphScale) -> Canvas,
 {
    match plan_of(size, bg_color, fg_color, text) {
        Err(e) => file == Err::<Vec<u8>, RequestError>(e),
        Ok(plan) => exists|blank: Canvas, caption: &str, drawn: Result<Canvas, RequestError>|
            created_by_way_of(plan, typeset, draw, file, blank, caption, drawn),
    }
}

/// Makes the PNG that a request asks for: a canvas of the size named by `size`,
/// filled with the background, the caption centred on it in the foreground.
///
/// `typeset` and `draw` are the typesetter's two operations, as for
/// `draw_centered_text`.
pub fn create_image<T, D>(
    size: &str,
    bg_color: Option<&str>,
    fg_color: Option<&str>,
    text: Option<&str>,
    typeset: T,
    draw: D,
) -> (file: Result<Vec<u8>, RequestError>) where
    T: Fn(&str, GlyphScale) -> Vec<Option<PixelBox>>,
    D: Fn(Canvas, &str, Color, i32, i32, GlyphScale) -> Canvas,

    requires
        plan_of(size@, text_of(bg_color), text_of(fg_color), text_of(text)) matches Ok(plan)
            ==> fits_memory(plan.width, plan.height),
        serves(typeset, draw),
    ensures
        image_created(
            size@,
            text_of(bg_color),
            text_of(fg_color),
            text_of(text),
            typeset,
            draw,
            file,
        ),
{
    let plan = match plan_image(size, bg_color, fg_color, text) {
        Ok(plan) => plan,
        Err(e) => {
            return Err(e);
        },
    };
    let canvas = plan.canvas();
    let caption = plan.caption.as_str();
    let ghost blank = canvas;
    let drawn = draw_centered_text(canvas, caption, plan.foreground, typeset, draw);
    let file = match drawn {
        Ok(canvas) => canvas.encode_png(),
        Err(e) => Err(e),
    };
    proof {
        let read = plan_of(size@, text_of(bg_color), text_of(fg_color), text_of(text));
        assert(read == Ok::<PlanModel, RequestError>(plan@));
        assert(created_by_way_of(read->Ok_0, typeset, draw, file, blank, caption, drawn));
    }
    file
}

/// Whether `typeset` answers alike whenever it is asked alike: for one text and
/// one scale, one line of glyph boxes.
pub open spec fn typeset_repeatable<T>(typeset: T) -> bool where
    T: Fn(&str, GlyphScale) -> Vec<Option<PixelBox>>,
 {
    forall|
        text_a: &str,
        text_b: &str,
        scale: GlyphScale,
        glyphs_a: Vec<Option<PixelBox>>,
        glyphs_b: Vec<Option<PixelBox>>,
    |
        text_a@ == text_b@ && #[trigger] call_ensures(typeset, (text_a, scale), glyphs_a)
            && #[trigger] call_ensures(typeset, (text_b, scale), glyphs_b) ==> glyphs_a@
            == glyphs_b@
}

/// Whether `draw` draws alike whenever it is asked alike: on one picture, with
/// one text, colour, point and scale, it leaves one picture.
pub open spec fn draw_repeatable<D>(draw: D) -> bool where
    D: Fn(Canvas, &str, Color, i32, i32, GlyphScale) -> Canvas,
 {
    forall|
        canvas_a: Canvas,
        canvas_b: Canvas,
        text_a: &str,
        text_b: &str,
        color: Color,
        x: i32,
        y: i32,
        scale: GlyphScale,
        drawn_a: Canvas,
        drawn_b: Canvas,
    |
        canvas_a.same_picture(canvas_b) && text_a@ == text_b@ && #[trigger] call_ensures(
            draw,
            (canvas_a, text_a, color, x, y, scale),
            drawn_a,
        ) && #[trigger] call_ensures(draw, (canvas_b, text_b, color, x, y, scale), drawn_b)
            ==> drawn_a.same_picture(drawn_b)
}

/// Whether `draw` leaves a canvas the size it had.
pub open spec fn draw_keeps_size<D>(draw: D) -> bool where
    D: Fn(Canvas, &str, Color, i32, i32, GlyphScale) -> Canvas,
 {
    forall|canvas: Canvas, text: &str, color: Color, x: i32, y: i32, scale: GlyphScale, drawn: Canvas|
        canvas.wf() && #[trigger] call_ensures(draw, (canvas, text, color, x, y, scale), drawn)
            ==> drawn.wf() && drawn.width() == canvas.width() && drawn.height()
            == canvas.height()
}

/// The same request gives the same answer: with a typesetter that answers alike
/// whenever it is asked alike, the request alone decides the bytes of the file,
/// or the error in its place.
pub proof fn lemma_same_request_same_image<T, D>(
    size: Seq<char>,
    bg_color: Option<Seq<char>>,
    fg_color: Option<Seq<char>>,
    text: Option<Seq<char>>,
    typeset: T,
    draw: D,
    first: Result<Vec<u8>, RequestError>,
    second: Result<Vec<u8>, RequestError>,
) where
    T: Fn(&str, GlyphScale) -> Vec<Option<PixelBox>>,
    D: Fn(Canvas, &str, Color, i32, i32, GlyphScale) -> Canvas,

    requires
        typeset_repeatable(typeset),
        draw_repeatable(draw),
        image_created(size, bg_color, fg_color, text, typeset, draw, first),
        image_created(size, bg_color, fg_color, text, typeset, draw, second),
    ensures
        outcome_of(first) == outcome_of(second),
{
    match plan_of(size, bg_color, fg_color, text) {
        Err(e) => {},
        Ok(plan) => {
            let (blank_a, caption_a, drawn_a) = choose|
                blank: Canvas,
                caption: &str,
                drawn: Result<Canvas, RequestError>,
            | created_by_way_of(plan, typeset, draw, first, blank, caption, drawn);
            let (blank_b, caption_b, drawn_b) = choose|
                blank: Canvas,
                caption: &str,
                drawn: Result<Canvas, RequestError>,
            | created_by_way_of(plan, typeset, draw, second, blank, caption, drawn);
            lemma_same_text_same_picture(
                blank_a,
                blank_b,
                caption_a,
                caption_b,
                plan.foreground,
                typeset,
                draw,
                drawn_a,
                drawn_b,
            );
            if drawn_a is Ok {
                lemma_encoding_repeatable(drawn_a->Ok_0, drawn_b->Ok_0, first, second);
            }
        },
    }
}

/// An image has the size that its request asks for: where a request is well
/// formed and the typesetter leaves canvases the size they had, a file that comes
/// of the request is the PNG of a bitmap as wide and as high as the request says.
pub proof fn lemma_image_has_size_asked_for<T, D>(
    size: Seq<char>,
    bg_color: Option<Seq<char>>,
    fg_color: Option<Seq<char>>,
    text: Option<Seq<char>>,
    typeset: T,
    draw: D,
    file: Result<Vec<u8>, RequestError>,
) where
    T: Fn(&str, GlyphScale) -> Vec<Option<PixelBox>>,
    D: Fn(Canvas, &str, Color, i32, i32, GlyphScale) -> Canvas,

    requires
        draw_keeps_size(draw),
        image_created(size, bg_color, fg_color, text, typeset, draw, file),
        file is Ok,
    ensures
        plan_of(size, bg_color, fg_color, text) is Ok,
        ({
            let plan = plan_of(size, bg_color, fg_color, text)->Ok_0;
            is_png_of_size(file->Ok_0@, plan.width as nat, plan.height as nat)
        }),
{
    let plan = plan_of(size, bg_color, fg_color, text)->Ok_0;
    let (blank, caption, drawn) = choose|
        blank: Canvas,
        caption: &str,
        drawn: Result<Canvas, RequestError>,
    | created_by_way_of(plan, typeset, draw, file, blank, caption, drawn);
    let canvas = drawn->Ok_0;
    assert(png_encoding(plan.width as nat, plan.height as nat, canvas.pixels()) == Some(
        file->Ok_0@,
    ));
}

/// Whether `file` is the PNG that the encoder writes for some bitmap of the
/// given width and height.
pub open spec fn is_png_of_size(file: Seq<u8>, width: nat, height: nat) -> bool {
    exists|pixels: Seq<Color>|
        pixels.len() == width * height && #[trigger] png_encoding(width, height, pixels) == Some(
            file,
        )
}

/// Whether `typeset` always places its text on a canvas of `width` by `height`:
/// whatever boxes it gives, the drawing origin for them is a point that `i32`
/// coordinates name.
pub open spec fn typeset_places<T>(typeset: T, width: u32, height: u32) -> bool where
    T: Fn(&str, GlyphScale) -> Vec<Option<PixelBox>>,
 {
    forall|text: &str, scale: GlyphScale, glyphs: Vec<Option<PixelBox>>| #[trigger]
        call_ensures(typeset, (text, scale), glyphs) ==> caption_origin_spec(
            width as int,
            height as int,
            glyphs@,
        ) is Some
}

/// Making an image fails if and only if the request is malformed: where the
/// typesetter places its text on the canvas asked for and leaves canvases the
/// size they had, a file comes of every request whose size and colours are well
/// formed, and of no other. Neither the text nor a colour left out makes a
/// request fail.
pub proof fn lemma_fails_only_when_malformed<T, D>(
    size: Seq<char>,
    bg_color: Option<Seq<char>>,
    fg_color: Option<Seq<char>>,
    text: Option<Seq<char>>,
    typeset: T,
    draw: D,
    file: Result<Vec<u8>, RequestError>,
) where
    T: Fn(&str, GlyphScale) -> Vec<Option<PixelBox>>,
    D: Fn(Canvas, &str, Color, i32, i32, GlyphScale) -> Canvas,

    requires
        size_of(size) matches Ok((width, height)) ==> typeset_places(typeset, width, height),
        draw_keeps_size(draw),
        image_created(size, bg_color, fg_color, text, typeset, draw, file),
    ensures
        file is Ok <==> plan_of(size, bg_color, fg_color, text) is Ok,
        file is Err <==> size_of(size) is Err || color_or(bg_color, default_background()) is Err
            || color_or(fg_color, default_foreground()) is Err,
{
    match plan_of(size, bg_color, fg_color, text) {
        Err(e) => {},
        Ok(plan) => {
            let (blank, caption, drawn) = choose|
                blank: Canvas,
                caption: &str,
                drawn: Result<Canvas, RequestError>,
            | created_by_way_of(plan, typeset, draw, file, blank, caption, drawn);
            assert(typeset_places(typeset, plan.width, plan.height));
            assert(drawn is Ok);
            assert(drawn->Ok_0.has_pixels());
        },
    }
}

/// The caption never changes whether an image is made: of two requests that
/// differ in their text alone, both give a file or neither does, where the
/// typesetter places its text and leaves canvases the size they had.
pub proof fn lemma_caption_keeps_outcome<T, D>(
    size: Seq<char>,
    bg_color: Option<Seq<char>>,
    fg_color: Option<Seq<char>>,
    text_a: Option<Seq<char>>,
    text_b: Option<Seq<char>>,
    typeset: T,
    draw: D,
    file_a: Result<Vec<u8>, RequestError>,
    file_b: Result<Vec<u8>, RequestError>,
) where
    T: Fn(&str, GlyphScale) -> Vec<Option<PixelBox>>,
    D: Fn(Canvas, &str, Color, i32, i32, GlyphScale) -> Canvas,

    requires
        size_of(size) matches Ok((width, height)) ==> typeset_places(typeset, width, height),
        draw_keeps_size(draw),
        image_created(size, bg_color, fg_color, text_a, typeset, draw, file_a),
        image_created(size, bg_color, fg_color, text_b, typeset, draw, file_b),
    ensures
        file_a is Ok <==> file_b is Ok,
        file_a is Ok ==> exists|width: nat, height: nat|
            is_png_of_size(file_a->Ok_0@, width, height) && is_png_of_size(
                file_b->Ok_0@,
                width,
                height,
            ),
{
    lemma_fails_only_when_malformed(size, bg_color, fg_color, text_a, typeset, draw, file_a);
    lemma_fails_only_when_malformed(size, bg_color, fg_color, text_b, typeset, draw, file_b);
    if file_a is Ok {
        lemma_image_has_size_asked_for(size, bg_color, fg_color, text_a, typeset, draw, file_a);
        lemma_image_has_size_asked_for(size, bg_color, fg_color, text_b, typeset, draw, file_b);
        let plan = plan_of(size, bg_color, fg_color, text_a)->Ok_0;
        assert(is_png_of_size(file_a->Ok_0@, plan.width as nat, plan.height as nat)
            && is_png_of_size(file_b->Ok_0@, plan.width as nat, plan.height as nat));
    }
}

/// A number alone gives a square: of the request `N`, for any 32-bit `N` of at
/// least 1, comes a file, and it is the PNG of a bitmap `N` wide and `N` high,
/// where the typesetter places its text and leaves canvases the size they had.
pub proof fn lemma_square_image<T, D>(
    side: u32,
    typeset: T,
    draw: D,
    file: Result<Vec<u8>, RequestError>,
) where
    T: Fn(&str, GlyphScale) -> Vec<Option<PixelBox>>,
    D: Fn(Canvas, &str, Color, i32, i32, GlyphScale) -> Canvas,

    requires
        side >= 1,
        typeset_places(typeset, side, side),
        draw_keeps_size(draw),
        image_created(decimal_digits(side as nat), None, None, None, typeset, draw, file),
    ensures
        file is Ok,
        is_png_of_size(file->Ok_0@, side as nat, side as nat),
{
    let size = decimal_digits(side as nat);
    lemma_square_request(side);
    lemma_fails_only_when_malformed(size, None, None, None, typeset, draw, file);
    lemma_image_has_size_asked_for(size, None, None, None, typeset, draw, file);
}

/// `WxH` gives `W` by `H`: of the request `WxH`, for any 32-bit `W` and `H` of at
/// least 1, comes a file, and it is the PNG of a bitmap `W` wide and `H` high,
/// where the typesetter places its text and leaves canvases the size they had.
pub proof fn lemma_rect_image<T, D>(
    width: u32,
    height: u32,
    typeset: T,
    draw: D,
    file: Result<Vec<u8>, RequestError>,
) where
    T: Fn(&str, GlyphScale) -> Vec<Option<PixelBox>>,
    D: Fn(Canvas, &str, Color, i32, i32, GlyphScale) -> Canvas,

    requires
        width >= 1,
        height >= 1,
        typeset_places(typeset, width, height),
        draw_keeps_size(draw),
        image_created(size_notation(width, height), None, None, None, typeset, draw, file),
    ensures
        file is Ok,
        is_png_of_size(file->Ok_0@, width as nat, height as nat),
{
    let size = size_notation(width, height);
    lemma_rect_request(width, height);
    lemma_fails_only_when_malformed(size, None, None, None, typeset, draw, file);
    lemma_image_has_size_asked_for(size, None, None, None, typeset, draw, file);
}

/// An image rests on what its request reads as, and on nothing else of the
/// request: two requests that read alike have the same outcomes.
pub proof fn lemma_image_rests_on_plan<T, D>(
    size_a: Seq<char>,
    bg_a: Option<Seq<char>>,
    fg_a: Option<Seq<char>>,
    text_a: Option<Seq<char>>,
    size_b: Seq<char>,
    bg_b: Option<Seq<char>>,
    fg_b: Option<Seq<char>>,
    text_b: Option<Seq<char>>,
    typeset: T,
    draw: D,
    file: Result<Vec<u8>, RequestError>,
) where
    T: Fn(&str, GlyphScale) -> Vec<Option<PixelBox>>,
    D: Fn(Canvas, &str, Color, i32, i32, GlyphScale) -> Canvas,

    requires
        plan_of(size_a, bg_a, fg_a, text_a) == plan_of(size_b, bg_b, fg_b, text_b),
    ensures
        image_created(size_a, bg_a, fg_a, text_a, typeset, draw, file) <==> image_created(
            size_b,
            bg_b,
            fg_b,
            text_b,
            typeset,
            draw,
            file,
        ),
{
}

/// Without text the image is that of the size as text: with a typesetter that
/// answers alike whenever it is asked alike, a request without text and the same
/// request with the text `WxH` of its size give the same bytes, or the same
/// error.
pub proof fn lemma_default_caption_image<T, D>(
    size: Seq<char>,
    bg_color: Option<Seq<char>>,
    fg_color: Option<Seq<char>>,
    typeset: T,
    draw: D,
    without: Result<Vec<u8>, RequestError>,
    with: Result<Vec<u8>, RequestError>,
) where
    T: Fn(&str, GlyphScale) -> Vec<Option<PixelBox>>,
    D: Fn(Canvas, &str, Color, i32, i32, GlyphScale) -> Canvas,

    requires
        size_of(size) is Ok,
        typeset_repeatable(typeset),
        draw_repeatable(draw),
        image_created(size, bg_color, fg_color, None, typeset, draw, without),
        image_created(
            size,
            bg_color,
            fg_color,
            Some(size_notation(size_of(size)->Ok_0.0, size_of(size)->Ok_0.1)),
            typeset,
            draw,
            with,
        ),
    ensures
        outcome_of(without) == outcome_of(with),
{
    let text = Some(size_notation(size_of(size)->Ok_0.0, size_of(size)->Ok_0.1));
    lemma_default_caption(size, bg_color, fg_color);
    lemma_image_rests_on_plan(
        size,
        bg_color,
        fg_color,
        None,
        size,
        bg_color,
        fg_color,
        text,
        typeset,
        draw,
        without,
    );
    lemma_same_request_same_image(size, bg_color, fg_color, text, typeset, draw, without, with);
}

/// The same text on the same picture gives the same picture: with a typesetter
/// that answers alike whenever it is asked alike, two outcomes of drawing one
/// text in one colour, on canvases that show the same picture, are the same
/// error or show the same picture.
pub proof fn lemma_same_text_same_picture<T, D>(
    canvas_a: Canvas,
    canvas_b: Canvas,
    text_a: &str,
    text_b: &str,
    color: Color,
    typeset: T,
    draw: D,
    first: Result<Canvas, RequestError>,
    second: Result<Canvas, RequestError>,
) where
    T: Fn(&str, GlyphScale) -> Vec<Option<PixelBox>>,
    D: Fn(Canvas, &str, Color, i32, i32, GlyphScale) -> Canvas,

    requires
        canvas_a.same_picture(canvas_b),
        text_a@ == text_b@,
        typeset_repeatable(typeset),
        draw_repeatable(draw),
        centered_text_drawn(canvas_a, text_a, color, typeset, draw, first),
        centered_text_drawn(canvas_b, text_b, color, typeset, draw, second),
    ensures
        first is Ok <==> second is Ok,
        first is Ok ==> first->Ok_0.same_picture(second->Ok_0),
        first is Err ==> first->Err_0 == second->Err_0,
{
    let scale = caption_scale(canvas_a.height() as u32);
    let width = canvas_a.width() as int;
    let height = canvas_a.height() as int;
    let glyphs_a = choose|glyphs: Vec<Option<PixelBox>>| #[trigger]
        call_ensures(typeset, (text_a, scale), glyphs) && match caption_origin_spec(
            width,
            height,
            glyphs@,
        ) {
            None => first == Err::<Canvas, RequestError>(RequestError::CaptionOutOfRange),
            Some((x, y)) => first matches Ok(drawn) && call_ensures(
                draw,
                (canvas_a, text_a, color, x, y, scale),
                drawn,
            ),
        };
    let glyphs_b = choose|glyphs: Vec<Option<PixelBox>>| #[trigger]
        call_ensures(typeset, (text_b, scale), glyphs) && match caption_origin_spec(
            width,
            height,
            glyphs@,
        ) {
            None => second == Err::<Canvas, RequestError>(RequestError::CaptionOutOfRange),
            Some((x, y)) => second matches Ok(drawn) && call_ensures(
                draw,
                (canvas_b, text_b, color, x, y, scale),
                drawn,
            ),
        };
    assert(glyphs_a@ == glyphs_b@);
}

} // verus!
