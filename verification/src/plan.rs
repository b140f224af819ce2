use vstd::prelude::*;
use vstd::string::StringExecFns;
use crate::canvas::{fits_memory, Canvas};
use crate::color::{
    color_of, default_background, default_foreground, is_hex_digit, parse_color, Color,
};
use crate::decimal::{append_decimal, decimal_digits};
use crate::error::RequestError;
use crate::size::{lemma_rect_size, lemma_square_size, parse_size, size_notation, size_of};

verus! {

/// What a request asks for, once its size and colours are read.
#[derive(Debug)]
pub struct ImagePlan {
    pub width: u32,
    pub height: u32,
    pub background: Color,
    pub foreground: Color,
    pub caption: String,
}

/// An `ImagePlan` as a mathematical value.
pub struct PlanModel {
    pub width: u32,
    pub height: u32,
    pub background: Color,
    pub foreground: Color,
    pub caption: Seq<char>,
}

impl View for ImagePlan {
    type V = PlanModel;

    open spec fn view(&self) -> PlanModel {
        PlanModel {
            width: self.width,
            height: self.height,
            background: self.background,
            foreground: self.foreground,
            caption: self.caption@,
        }
    }
}

/// The characters of an optional string.
pub open spec fn text_of(s: Option<&str>) -> Option<Seq<char>> {
    match s {
        Some(s) => Some(s@),
        None => None,
    }
}

/// The colour a request asks for: the one it spells, or `default` where it names none.
pub open spec fn color_or(given: Option<Seq<char>>, default: Color) -> Result<Color, RequestError> {
    match given {
        Some(s) => color_of(s),
        None => Ok(default),
    }
}

/// The caption of an image: the text of the request, or the image's size as
/// `WxH` where the request has none.
pub open spec fn caption_of(width: u32, height: u32, text: Option<Seq<char>>) -> Seq<char> {
    match text {
        Some(t) => t,
        None => size_notation(width, height),
    }
}

/// What a request asks for. A malformed size is reported before a malformed
/// background, and that before a malformed foreground.
pub open spec fn plan_of(
    size: Seq<char>,
    bg_color: Option<Seq<char>>,
    fg_color: Option<Seq<char>>,
    text: Option<Seq<char>>,
) -> Result<PlanModel, RequestError> {
    match size_of(size) {
        Err(e) => Err(e),
        Ok((width, height)) => match color_or(bg_color, default_background()) {
            Err(e) => Err(e),
            Ok(background) => match color_or(fg_color, default_foreground()) {
                Err(e) => Err(e),
                Ok(foreground) => Ok(
                    PlanModel {
                        width,
                        height,
                        background,
                        foreground,
                        caption: caption_of(width, height, text),
                    },
                ),
            },
        },
    }
}

/// Whether `outcome` is what reading the given request gives.
pub open spec fn reads_as(
    size: Seq<char>,
    bg_color: Option<Seq<char>>,
    fg_color: Option<Seq<char>>,
    text: Option<Seq<char>>,
    outcome: Result<ImagePlan, RequestError>,
) -> bool {
    match outcome {
        Ok(plan) => plan_of(size, bg_color, fg_color, text) == Ok::<PlanModel, RequestError>(plan@),
        Err(e) => plan_of(size, bg_color, fg_color, text) == Err::<PlanModel, RequestError>(e),
    }
}

/// The caption of an image without text of its own: its size, as `WxH`.
pub fn size_caption(width: u32, height: u32) -> (caption: String)
    ensures
        caption@ == size_notation(width, height),
{
    let mut caption = String::new();
    append_decimal(&mut caption, width);
    proof {
        reveal_strlit("x");
    }
    caption.append("x");
    append_decimal(&mut caption, height);
    caption
}

/// Reads a request: its size, its colours where it names any, and its caption.
pub fn plan_image(
    size: &str,
    bg_color: Option<&str>,
    fg_color: Option<&str>,
    text: Option<&str>,
) -> (r: Result<ImagePlan, RequestError>)
    ensures
        reads_as(size@, text_of(bg_color), text_of(fg_color), text_of(text), r),
{
    let (width, height) = match parse_size(size) {
        Ok(dimensions) => dimensions,
        Err(e) => {
            return Err(e);
        },
    };
    let background = match bg_color {
        Some(color) => match parse_color(color) {
            Ok(c) => c,
            Err(e) => {
                return Err(e);
            },
        },
        None => Color::light_gray(),
    };
    let foreground = match fg_color {
        Some(color) => match parse_color(color) {
            Ok(c) => c,
            Err(e) => {
                return Err(e);
            },
        },
        None => Color::black(),
    };
    let caption = match text {
        Some(text) => text.to_owned(),
        None => size_caption(width, height),
    };
    Ok(ImagePlan { width, height, background, foreground, caption })
}

impl ImagePlan {
    /// The canvas of this plan before any text is drawn: of the plan's size,
    /// every pixel the background colour.
    pub fn canvas(&self) -> (canvas: Canvas)
        requires
            fits_memory(self.width, self.height),
        ensures
            canvas.wf(),
            canvas.width() == self.width,
            canvas.height() == self.height,
            canvas.pixels() == Seq::new((self.width * self.height) as nat, |i: int| self.background),
    {
        Canvas::filled(self.width, self.height, self.background)
    }
}

/// Reading is repeatable: the same request read twice gives the same size,
/// colours and caption, or the same error.
pub proof fn lemma_reading_repeatable(
    size: Seq<char>,
    bg_color: Option<Seq<char>>,
    fg_color: Option<Seq<char>>,
    text: Option<Seq<char>>,
    first: Result<ImagePlan, RequestError>,
    second: Result<ImagePlan, RequestError>,
)
    requires
        reads_as(size, bg_color, fg_color, text, first),
        reads_as(size, bg_color, fg_color, text, second),
    ensures
        first is Ok <==> second is Ok,
        first is Ok ==> first->Ok_0@ == second->Ok_0@,
        first is Err ==> first->Err_0 == second->Err_0,
{
}

/// A request of a number alone, with no colours and no text, asks for a square
/// of that side in the default colours, captioned with its size.
pub proof fn lemma_square_request(side: u32)
    requires
        side >= 1,
    ensures
        plan_of(decimal_digits(side as nat), None, None, None) == Ok::<PlanModel, RequestError>(
            PlanModel {
                width: side,
                height: side,
                background: default_background(),
                foreground: default_foreground(),
                caption: size_notation(side, side),
            },
        ),
{
    lemma_square_size(side);
}

/// A request of `WxH`, with no colours and no text, asks for an image `W` wide
/// and `H` high in the default colours, captioned with the same `WxH`.
pub proof fn lemma_rect_request(width: u32, height: u32)
    requires
        width >= 1,
        height >= 1,
    ensures
        plan_of(size_notation(width, height), None, None, None) == Ok::<PlanModel, RequestError>(
            PlanModel {
                width,
                height,
                background: default_background(),
                foreground: default_foreground(),
                caption: size_notation(width, height),
            },
        ),
{
    lemma_rect_size(width, height);
}

/// Leaving the text out is asking for the size as caption: a request without
/// text reads as the same request with the text `WxH`, `W` and `H` being the
/// width and height that its size names.
pub proof fn lemma_default_caption(
    size: Seq<char>,
    bg_color: Option<Seq<char>>,
    fg_color: Option<Seq<char>>,
)
    requires
        size_of(size) is Ok,
    ensures
        ({
            let (width, height) = size_of(size)->Ok_0;
            plan_of(size, bg_color, fg_color, None) == plan_of(
                size,
                bg_color,
                fg_color,
                Some(size_notation(width, height)),
            )
        }),
{
}

/// Leaving a colour out is asking for the default: a request without background
/// reads as the same request with the background `f0f0f0`, and one without
/// foreground as the same request with the foreground `000000`.
pub proof fn lemma_default_colors(
    size: Seq<char>,
    bg_color: Option<Seq<char>>,
    fg_color: Option<Seq<char>>,
    text: Option<Seq<char>>,
)
    ensures
        plan_of(size, None, fg_color, text) == plan_of(size, Some("f0f0f0"@), fg_color, text),
        plan_of(size, bg_color, None, text) == plan_of(size, bg_color, Some("000000"@), text),
{
    reveal_strlit("f0f0f0");
    reveal_strlit("000000");
    let light = "f0f0f0"@;
    let dark = "000000"@;
    assert forall|i: int| 0 <= i < 6 implies is_hex_digit(#[trigger] light[i]) && is_hex_digit(
        #[trigger] dark[i],
    ) by {
        assert(i == 0 || i == 1 || i == 2 || i == 3 || i == 4 || i == 5);
    }
    assert(color_of(light) == Ok::<Color, RequestError>(default_background()));
    assert(color_of(dark) == Ok::<Color, RequestError>(default_foreground()));
}

/// Whether a request is well formed does not rest on its text.
pub proof fn lemma_text_is_never_malformed(
    size: Seq<char>,
    bg_color: Option<Seq<char>>,
    fg_color: Option<Seq<char>>,
    text_a: Option<Seq<char>>,
    text_b: Option<Seq<char>>,
)
    ensures
        plan_of(size, bg_color, fg_color, text_a) is Ok <==> plan_of(
            size,
            bg_color,
            fg_color,
            text_b,
        ) is Ok,
        plan_of(size, bg_color, fg_color, text_a) is Ok ==> ({
            let a = plan_of(size, bg_color, fg_color, text_a)->Ok_0;
            let b = plan_of(size, bg_color, fg_color, text_b)->Ok_0;
            a.width == b.width && a.height == b.height && a.background == b.background
                && a.foreground == b.foreground
        }),
{
}

/// Every plan has a pixel: a request that is well formed asks for an image at
/// least 1 wide and at least 1 high.
pub proof fn lemma_plan_has_pixels(
    size: Seq<char>,
    bg_color: Option<Seq<char>>,
    fg_color: Option<Seq<char>>,
    text: Option<Seq<char>>,
)
    ensures
        plan_of(size, bg_color, fg_color, text) matches Ok(plan) ==> plan.width >= 1 && plan.height
            >= 1,
{
}

} // verus!
