use vstd::prelude::*;
use crate::canvas::{fits_memory, Canvas};
use crate::color::Color;
use crate::error::RequestError;
use crate::decimal::decimal_digits;
use crate::image_generator::{
    create_image, draw_keeps_size, draw_repeatable, image_created, is_png_of_size,
    lemma_caption_keeps_outcome, lemma_fails_only_when_malformed, lemma_rect_image,
    lemma_same_request_same_image, lemma_square_image, serves, typeset_places,
    typeset_repeatable,
};
use crate::layout::{GlyphScale, PixelBox};
use crate::plan::plan_of;
use crate::response::{
    ascii_bytes, error_text, outcome_of, respond, response_of, status_bad_request, status_ok,
    ContentType, Response,
};
use crate::size::{size_notation, size_of};

verus! {

/// Whether `response` answers a request: it is the answer that the outcome of
/// making the request's image calls for.
pub open spec fn answered<T, D>(
    size: Seq<char>,
    bg_color: Option<Seq<char>>,
    fg_color: Option<Seq<char>>,
    text: Option<Seq<char>>,
    typeset: T,
    draw: D,
    response: Response,
) -> bool where
    T: Fn(&str, GlyphScale) -> Vec<Option<PixelBox>>,
    D: Fn(Canvas, &str, Color, i32, i32, GlyphScale) -> Canvas,
 {
    exists|file: Result<Vec<u8>, RequestError>| #[trigger]
        image_created(size, bg_color, fg_color, text, typeset, draw, file) && response.summary()
            == response_of(outcome_of(file))
}

/// Answers a request that names a size alone: default colours, the size as caption.
pub fn generate_image_with_size<T, D>(size: &str, typeset: T, draw: D) -> (response: Response) where
    T: Fn(&str, GlyphScale) -> Vec<Option<PixelBox>>,
    D: Fn(Canvas, &str, Color, i32, i32, GlyphScale) -> Canvas,

    requires
        plan_of(size@, None, None, None) matches Ok(plan) ==> fits_memory(
            plan.width,
            plan.height,
        ),
        serves(typeset, draw),
    ensures
        answered(size@, None, None, None, typeset, draw, response),
{
    respond(create_image(size, None, None, None, typeset, draw))
}

/// Answers a request that names a size, both colours and a caption.
pub fn generate_image<T, D>(size: &str, bg: &str, fg: &str, text: &str, typeset: T, draw: D) -> (response:
    Response) where
    T: Fn(&str, GlyphScale) -> Vec<Option<PixelBox>>,
    D: Fn(Canvas, &str, Color, i32, i32, GlyphScale) -> Canvas,

    requires
        plan_of(size@, Some(bg@), Some(fg@), Some(text@)) matches Ok(plan) ==> fits_memory(
            plan.width,
            plan.height,
        ),
        serves(typeset, draw),
    ensures
        answered(size@, Some(bg@), Some(fg@), Some(text@), typeset, draw, response),
{
    respond(create_image(size, Some(bg), Some(fg), Some(text), typeset, draw))
}

/// Answers a request that names a size and both colours: the size as caption.
pub fn generate_image_without_text<T, D>(size: &str, bg: &str, fg: &str, typeset: T, draw: D) -> (response:
    Response) where
    T: Fn(&str, GlyphScale) -> Vec<Option<PixelBox>>,
    D: Fn(Canvas, &str, Color, i32, i32, GlyphScale) -> Canvas,

    requires
        plan_of(size@, Some(bg@), Some(fg@), None) matches Ok(plan) ==> fits_memory(
            plan.width,
            plan.height,
        ),
        serves(typeset, draw),
    ensures
        answered(size@, Some(bg@), Some(fg@), None, typeset, draw, response),
{
    respond(create_image(size, Some(bg), Some(fg), None, typeset, draw))
}

/// A malformed request is refused: whatever the typesetter, a request whose size
/// or colours are malformed is answered with status 400 and the plain text
/// `Invalid parameters`.
pub proof fn lemma_malformed_request_refused<T, D>(
    size: Seq<char>,
    bg_color: Option<Seq<char>>,
    fg_color: Option<Seq<char>>,
    text: Option<Seq<char>>,
    typeset: T,
    draw: D,
    response: Response,
) where
    T: Fn(&str, GlyphScale) -> Vec<Option<PixelBox>>,
    D: Fn(Canvas, &str, Color, i32, i32, GlyphScale) -> Canvas,

    requires
        plan_of(size, bg_color, fg_color, text) is Err,
        answered(size, bg_color, fg_color, text, typeset, draw, response),
    ensures
        response.status == status_bad_request(),
        response.content_type == ContentType::PlainText,
        response.body@ == ascii_bytes(error_text()),
{
}

/// No other answer is given: every answer is either status 200 with a PNG or
/// status 400 with the plain text `Invalid parameters`.
pub proof fn lemma_two_answers<T, D>(
    size: Seq<char>,
    bg_color: Option<Seq<char>>,
    fg_color: Option<Seq<char>>,
    text: Option<Seq<char>>,
    typeset: T,
    draw: D,
    response: Response,
) where
    T: Fn(&str, GlyphScale) -> Vec<Option<PixelBox>>,
    D: Fn(Canvas, &str, Color, i32, i32, GlyphScale) -> Canvas,

    requires
        answered(size, bg_color, fg_color, text, typeset, draw, response),
    ensures
        (response.status == status_ok() && response.content_type == ContentType::Png) || (
        response.status == status_bad_request() && response.content_type == ContentType::PlainText
            && response.body@ == ascii_bytes(error_text())),
{
}

/// The status tells whether the request was well formed: where the typesetter
/// places its text on the canvas asked for and leaves canvases the size they
/// had, the answer is status 200 with a PNG if the size and colours are well
/// formed, and status 400 if they are not.
pub proof fn lemma_status_tells_malformed<T, D>(
    size: Seq<char>,
    bg_color: Option<Seq<char>>,
    fg_color: Option<Seq<char>>,
    text: Option<Seq<char>>,
    typeset: T,
    draw: D,
    response: Response,
) where
    T: Fn(&str, GlyphScale) -> Vec<Option<PixelBox>>,
    D: Fn(Canvas, &str, Color, i32, i32, GlyphScale) -> Canvas,

    requires
        size_of(size) matches Ok((width, height)) ==> typeset_places(typeset, width, height),
        draw_keeps_size(draw),
        answered(size, bg_color, fg_color, text, typeset, draw, response),
    ensures
        response.status == status_ok() <==> plan_of(size, bg_color, fg_color, text) is Ok,
        response.status == status_bad_request() <==> plan_of(size, bg_color, fg_color, text) is Err,
        response.status == status_ok() ==> response.content_type == ContentType::Png,
{
    let file = choose|file: Result<Vec<u8>, RequestError>| #[trigger]
        image_created(size, bg_color, fg_color, text, typeset, draw, file) && response.summary()
            == response_of(outcome_of(file));
    lemma_fails_only_when_malformed(size, bg_color, fg_color, text, typeset, draw, file);
}

/// The caption never changes the status: two requests that differ in their text
/// alone are answered with the same status, where the typesetter places its
/// text and leaves canvases the size they had.
pub proof fn lemma_caption_keeps_status<T, D>(
    size: Seq<char>,
    bg_color: Option<Seq<char>>,
    fg_color: Option<Seq<char>>,
    text_a: Option<Seq<char>>,
    text_b: Option<Seq<char>>,
    typeset: T,
    draw: D,
    response_a: Response,
    response_b: Response,
) where
    T: Fn(&str, GlyphScale) -> Vec<Option<PixelBox>>,
    D: Fn(Canvas, &str, Color, i32, i32, GlyphScale) -> Canvas,

    requires
        size_of(size) matches Ok((width, height)) ==> typeset_places(typeset, width, height),
        draw_keeps_size(draw),
        answered(size, bg_color, fg_color, text_a, typeset, draw, response_a),
        answered(size, bg_color, fg_color, text_b, typeset, draw, response_b),
    ensures
        response_a.status == response_b.status,
        response_a.content_type == response_b.content_type,
{
    let file_a = choose|file: Result<Vec<u8>, RequestError>| #[trigger]
        image_created(size, bg_color, fg_color, text_a, typeset, draw, file)
            && response_a.summary() == response_of(outcome_of(file));
    let file_b = choose|file: Result<Vec<u8>, RequestError>| #[trigger]
        image_created(size, bg_color, fg_color, text_b, typeset, draw, file)
            && response_b.summary() == response_of(outcome_of(file));
    lemma_caption_keeps_outcome(
        size,
        bg_color,
        fg_color,
        text_a,
        text_b,
        typeset,
        draw,
        file_a,
        file_b,
    );
}

/// The same request gets the same answer: with a typesetter that answers alike
/// whenever it is asked alike, two answers to one request have one status, one
/// content type and, byte for byte, one body.
pub proof fn lemma_same_request_same_answer<T, D>(
    size: Seq<char>,
    bg_color: Option<Seq<char>>,
    fg_color: Option<Seq<char>>,
    text: Option<Seq<char>>,
    typeset: T,
    draw: D,
    first: Response,
    second: Response,
) where
    T: Fn(&str, GlyphScale) -> Vec<Option<PixelBox>>,
    D: Fn(Canvas, &str, Color, i32, i32, GlyphScale) -> Canvas,

    requires
        typeset_repeatable(typeset),
        draw_repeatable(draw),
        answered(size, bg_color, fg_color, text, typeset, draw, first),
        answered(size, bg_color, fg_color, text, typeset, draw, second),
    ensures
        first.summary() == second.summary(),
{
    let file_a = choose|file: Result<Vec<u8>, RequestError>| #[trigger]
        image_created(size, bg_color, fg_color, text, typeset, draw, file) && first.summary()
            == response_of(outcome_of(file));
    let file_b = choose|file: Result<Vec<u8>, RequestError>| #[trigger]
        image_created(size, bg_color, fg_color, text, typeset, draw, file) && second.summary()
            == response_of(outcome_of(file));
    lemma_same_request_same_image(size, bg_color, fg_color, text, typeset, draw, file_a, file_b);
}

/// A number alone is answered with a square: the request `N`, for any 32-bit
/// `N` of at least 1, is answered with status 200 and the PNG of a bitmap `N`
/// wide and `N` high, where the typesetter places its text and leaves canvases
/// the size they had.
pub proof fn lemma_square_answer<T, D>(side: u32, typeset: T, draw: D, response: Response) where
    T: Fn(&str, GlyphScale) -> Vec<Option<PixelBox>>,
    D: Fn(Canvas, &str, Color, i32, i32, GlyphScale) -> Canvas,

    requires
        side >= 1,
        typeset_places(typeset, side, side),
        draw_keeps_size(draw),
        answered(decimal_digits(side as nat), None, None, None, typeset, draw, response),
    ensures
        response.status == status_ok(),
        response.content_type == ContentType::Png,
        is_png_of_size(response.body@, side as nat, side as nat),
{
    let file = choose|file: Result<Vec<u8>, RequestError>| #[trigger]
        image_created(decimal_digits(side as nat), None, None, None, typeset, draw, file)
            && response.summary() == response_of(outcome_of(file));
    lemma_square_image(side, typeset, draw, file);
}

/// `WxH` is answered with `W` by `H`: the request `WxH`, for any 32-bit `W` and
/// `H` of at least 1, is answered with status 200 and the PNG of a bitmap `W`
/// wide and `H` high, where the typesetter places its text and leaves canvases
/// the size they had.
pub proof fn lemma_rect_answer<T, D>(
    width: u32,
    height: u32,
    typeset: T,
    draw: D,
    response: Response,
) where
    T: Fn(&str, GlyphScale) -> Vec<Option<PixelBox>>,
    D: Fn(Canvas, &str, Color, i32, i32, GlyphScale) -> Canvas,

    requires
        width >= 1,
        height >= 1,
        typeset_places(typeset, width, height),
        draw_keeps_size(draw),
        answered(size_notation(width, height), None, None, None, typeset, draw, response),
    ensures
        response.status == status_ok(),
        response.content_type == ContentType::Png,
        is_png_of_size(response.body@, width as nat, height as nat),
{
    let file = choose|file: Result<Vec<u8>, RequestError>| #[trigger]
        image_created(size_notation(width, height), None, None, None, typeset, draw, file)
            && response.summary() == response_of(outcome_of(file));
    lemma_rect_image(width, height, typeset, draw, file);
}

} // verus!
