use vstd::prelude::*;
use crate::canvas::Canvas;

verus! {

/// The pixels that a glyph's ink may touch: columns `min_x..max_x`, rows `min_y..max_y`.
#[derive(Clone, Copy, Debug, PartialEq, Eq, Structural)]
pub struct PixelBox {
    pub min_x: i32,
    pub min_y: i32,
    pub max_x: i32,
    pub max_y: i32,
}

/// The height of a line of glyphs, in pixels: `numerator / denominator`.
#[derive(Clone, Copy, Debug, PartialEq, Eq, Structural)]
pub struct GlyphScale {
    pub numerator: u32,
    pub denominator: u32,
}

/// The scale of the caption on a canvas of the given height: a sixth of it.
pub open spec fn caption_scale(height: u32) -> GlyphScale {
    GlyphScale { numerator: height, denominator: 6 }
}

/// The degenerate box at the origin.
pub open spec fn origin_box() -> PixelBox {
    PixelBox { min_x: 0, min_y: 0, max_x: 0, max_y: 0 }
}

/// The smallest box that encloses both `a` and `b`.
pub open spec fn join(a: PixelBox, b: PixelBox) -> PixelBox {
    PixelBox {
        min_x: if a.min_x <= b.min_x { a.min_x } else { b.min_x },
        min_y: if a.min_y <= b.min_y { a.min_y } else { b.min_y },
        max_x: if a.max_x >= b.max_x { a.max_x } else { b.max_x },
        max_y: if a.max_y >= b.max_y { a.max_y } else { b.max_y },
    }
}

/// The smallest box that encloses the box of every glyph that has one, or `None`
/// where no glyph has ink.
pub open spec fn ink_bounds(glyphs: Seq<Option<PixelBox>>) -> Option<PixelBox>
    decreases glyphs.len(),
{
    if glyphs.len() == 0 {
        None
    } else {
        match (ink_bounds(glyphs.drop_last()), glyphs.last()) {
            (None, last) => last,
            (Some(so_far), None) => Some(so_far),
            (Some(so_far), Some(last)) => Some(join(so_far, last)),
        }
    }
}

/// The bounding box of a line of text: that of its ink, or the degenerate box at
/// the origin where it has none.
pub open spec fn bounds_of(glyphs: Seq<Option<PixelBox>>) -> PixelBox {
    match ink_bounds(glyphs) {
        Some(bounds) => bounds,
        None => origin_box(),
    }
}

/// How far from the canvas edge a stretch of `extent` pixels starts when it is
/// centred on `canvas` pixels; 0 where it does not fit.
pub open spec fn centered_offset(canvas: int, extent: int) -> int {
    if extent >= canvas {
        0
    } else {
        (canvas - extent) / 2
    }
}

/// Where drawing must start for ink with the given bounds to be centred on a
/// canvas of `width` by `height`: the centred offset less the box's own minimum.
pub open spec fn origin_of(width: int, height: int, bounds: PixelBox) -> (int, int) {
    (
        centered_offset(width, bounds.max_x - bounds.min_x) - bounds.min_x,
        centered_offset(height, bounds.max_y - bounds.min_y) - bounds.min_y,
    )
}

/// Whether `v` is a value of `i32`.
pub open spec fn fits_i32(v: int) -> bool {
    i32::MIN <= v <= i32::MAX
}

/// The drawing origin that centres the ink of `glyphs` on a canvas of `width` by
/// `height`, where both of its coordinates are values of `i32`.
pub open spec fn caption_origin_spec(width: int, height: int, glyphs: Seq<Option<PixelBox>>) -> Option<
    (i32, i32),
> {
    let at = origin_of(width, height, bounds_of(glyphs));
    if fits_i32(at.0) && fits_i32(at.1) {
        Some((at.0 as i32, at.1 as i32))
    } else {
        None
    }
}

/// Whether glyph `i` of `glyphs` has ink.
pub open spec fn inked(glyphs: Seq<Option<PixelBox>>, i: int) -> bool {
    0 <= i < glyphs.len() && glyphs[i] is Some
}

/// Whether `outer` reaches at least as far as `inner` on all four sides.
pub open spec fn encloses(outer: PixelBox, inner: PixelBox) -> bool {
    &&& outer.min_x <= inner.min_x
    &&& outer.min_y <= inner.min_y
    &&& outer.max_x >= inner.max_x
    &&& outer.max_y >= inner.max_y
}

/// Whether each side of `bounds` is a side of the box of some glyph with ink.
pub open spec fn touches(bounds: PixelBox, glyphs: Seq<Option<PixelBox>>) -> bool {
    &&& exists|i: int| inked(glyphs, i) && (#[trigger] glyphs[i])->0.min_x == bounds.min_x
    &&& exists|i: int| inked(glyphs, i) && (#[trigger] glyphs[i])->0.min_y == bounds.min_y
    &&& exists|i: int| inked(glyphs, i) && (#[trigger] glyphs[i])->0.max_x == bounds.max_x
    &&& exists|i: int| inked(glyphs, i) && (#[trigger] glyphs[i])->0.max_y == bounds.max_y
}

/// The bounds of the ink are tight: they enclose the box of every glyph that has
/// ink, and each of their sides is a side of one of those boxes. Without ink
/// there are none.
pub proof fn lemma_ink_bounds_tight(glyphs: Seq<Option<PixelBox>>)
    ensures
        ink_bounds(glyphs) is None <==> forall|i: int| !inked(glyphs, i),
        ink_bounds(glyphs) matches Some(bounds) ==> touches(bounds, glyphs) && forall|i: int|
            inked(glyphs, i) ==> encloses(bounds, (#[trigger] glyphs[i])->0),
    decreases glyphs.len(),
{
    if glyphs.len() > 0 {
        let rest = glyphs.drop_last();
        let n = rest.len() as int;
        lemma_ink_bounds_tight(rest);
        assert forall|i: int| inked(rest, i) implies inked(glyphs, i) && rest[i] == glyphs[i] by {}
        assert forall|i: int| inked(glyphs, i) && i != n implies inked(rest, i) && rest[i]
            == glyphs[i] by {}
        match (ink_bounds(rest), glyphs.last()) {
            (None, None) => {},
            (None, Some(last)) => {
                assert(inked(glyphs, n) && glyphs[n]->0 == last);
            },
            (Some(so_far), None) => {
                lemma_touches_longer(so_far, rest, glyphs);
            },
            (Some(so_far), Some(last)) => {
                lemma_touches_longer(so_far, rest, glyphs);
                assert(inked(glyphs, n) && glyphs[n]->0 == last);
            },
        }
    }
}

/// A box that touches the glyphs of a line still touches them when the line grows.
proof fn lemma_touches_longer(
    bounds: PixelBox,
    rest: Seq<Option<PixelBox>>,
    glyphs: Seq<Option<PixelBox>>,
)
    requires
        glyphs.len() > 0,
        rest == glyphs.drop_last(),
        touches(bounds, rest),
    ensures
        touches(bounds, glyphs),
{
    let a = choose|i: int| inked(rest, i) && (#[trigger] rest[i])->0.min_x == bounds.min_x;
    assert(inked(glyphs, a) && glyphs[a]->0.min_x == bounds.min_x);
    let b = choose|i: int| inked(rest, i) && (#[trigger] rest[i])->0.min_y == bounds.min_y;
    assert(inked(glyphs, b) && glyphs[b]->0.min_y == bounds.min_y);
    let c = choose|i: int| inked(rest, i) && (#[trigger] rest[i])->0.max_x == bounds.max_x;
    assert(inked(glyphs, c) && glyphs[c]->0.max_x == bounds.max_x);
    let d = choose|i: int| inked(rest, i) && (#[trigger] rest[i])->0.max_y == bounds.max_y;
    assert(inked(glyphs, d) && glyphs[d]->0.max_y == bounds.max_y);
}

/// Whether `b` is a box of moderate reach: its sides are in order and none lies
/// farther than 2^30 pixels from the origin.
pub open spec fn moderate(b: PixelBox) -> bool {
    &&& -0x4000_0000 <= b.min_x <= b.max_x <= 0x4000_0000
    &&& -0x4000_0000 <= b.min_y <= b.max_y <= 0x4000_0000
}

/// Text of moderate reach can always be placed: where every glyph with ink has
/// a box of moderate reach and the canvas is no wider and no higher than
/// 2^31 - 1, the drawing origin is a point that `i32` coordinates name.
pub proof fn lemma_moderate_text_is_placed(width: int, height: int, glyphs: Seq<Option<PixelBox>>)
    requires
        0 <= width <= i32::MAX,
        0 <= height <= i32::MAX,
        forall|i: int| inked(glyphs, i) ==> moderate((#[trigger] glyphs[i])->0),
    ensures
        caption_origin_spec(width, height, glyphs) is Some,
{
    lemma_ink_bounds_tight(glyphs);
    match ink_bounds(glyphs) {
        None => {},
        Some(bounds) => {
            let a = choose|i: int| inked(glyphs, i) && (#[trigger] glyphs[i])->0.min_x == bounds.min_x;
            let b = choose|i: int| inked(glyphs, i) && (#[trigger] glyphs[i])->0.min_y == bounds.min_y;
            let c = choose|i: int| inked(glyphs, i) && (#[trigger] glyphs[i])->0.max_x == bounds.max_x;
            let d = choose|i: int| inked(glyphs, i) && (#[trigger] glyphs[i])->0.max_y == bounds.max_y;
            assert(moderate(glyphs[a]->0) && moderate(glyphs[b]->0));
            assert(moderate(glyphs[c]->0) && moderate(glyphs[d]->0));
            assert(encloses(bounds, glyphs[a]->0) && encloses(bounds, glyphs[b]->0));
            assert(moderate(bounds));
        },
    }
}

/// Centring leaves as much room before the ink as after it, to within the one
/// pixel that cannot be split, wherever the ink is no longer than the canvas;
/// longer ink starts at the canvas edge.
pub proof fn lemma_ink_centered(canvas: int, min: int, max: int)
    requires
        0 <= canvas,
        min <= max,
    ensures
        ({
            let at = centered_offset(canvas, max - min) - min;
            let before = at + min;
            let after = canvas - (at + max);
            if max - min <= canvas {
                0 <= before <= after <= before + 1
            } else {
                before == 0
            }
        }),
{
}

impl PixelBox {
    /// The smallest box that encloses both `self` and `other`.
    pub fn join(self, other: PixelBox) -> (both: PixelBox)
        ensures
            both == join(self, other),
    {
        PixelBox {
            min_x: if self.min_x <= other.min_x { self.min_x } else { other.min_x },
            min_y: if self.min_y <= other.min_y { self.min_y } else { other.min_y },
            max_x: if self.max_x >= other.max_x { self.max_x } else { other.max_x },
            max_y: if self.max_y >= other.max_y { self.max_y } else { other.max_y },
        }
    }
}

impl GlyphScale {
    /// The scale of the caption on a canvas of the given height.
    pub fn for_canvas(height: u32) -> (scale: GlyphScale)
        ensures
            scale == caption_scale(height),
    {
        GlyphScale { numerator: height, denominator: 6 }
    }
}

/// The bounding box of the ink of `glyphs`.
pub fn text_bounds(glyphs: &Vec<Option<PixelBox>>) -> (bounds: PixelBox)
    ensures
        bounds == bounds_of(glyphs@),
{
    let mut so_far: Option<PixelBox> = None;
    let mut i: usize = 0;
    while i < glyphs.len()
        invariant
            i <= glyphs.len(),
            so_far == ink_bounds(glyphs@.take(i as int)),
        decreases glyphs.len() - i,
    {
        assert(glyphs@.take(i + 1).drop_last() == glyphs@.take(i as int));
        so_far = match (so_far, glyphs[i]) {
            (None, last) => last,
            (Some(a), None) => Some(a),
            (Some(a), Some(b)) => Some(a.join(b)),
        };
        i += 1;
    }
    assert(glyphs@.take(i as int) == glyphs@);
    match so_far {
        Some(bounds) => bounds,
        None => PixelBox { min_x: 0, min_y: 0, max_x: 0, max_y: 0 },
    }
}

/// The drawing coordinate along one axis: the centred offset of `min..max` on
/// `canvas` pixels, less `min`.
fn axis_origin(canvas: u32, min: i32, max: i32) -> (at: i64)
    ensures
        at == centered_offset(canvas as int, max - min) - min,
{
    let extent: i64 = max as i64 - min as i64;
    let offset: i64 = if extent >= canvas as i64 {
        0
    } else {
        ((canvas as i64 - extent) as u64 / 2) as i64
    };
    offset - min as i64
}

/// Where to start drawing text whose ink has the given bounds so that the ink is
/// centred on a canvas of `width` by `height` pixels; `None` where either
/// coordinate is no `i32`.
pub fn caption_origin(width: u32, height: u32, bounds: PixelBox) -> (at: Option<(i32, i32)>)
    ensures
        match at {
            Some((x, y)) => (x as int, y as int) == origin_of(width as int, height as int, bounds),
            None => !(fits_i32(origin_of(width as int, height as int, bounds).0) && fits_i32(
                origin_of(width as int, height as int, bounds).1,
            )),
        },
{
    let x = axis_origin(width, bounds.min_x, bounds.max_x);
    let y = axis_origin(height, bounds.min_y, bounds.max_y);
    if i32::MIN as i64 <= x && x <= i32::MAX as i64 && i32::MIN as i64 <= y && y <= i32::MAX as i64 {
        Some((x as i32, y as i32))
    } else {
        None
    }
}

/// Where to start drawing a line of text on `canvas` so that its ink is centred,
/// given the box of each of its glyphs as laid out from the origin.
pub fn centered_text_origin(canvas: &Canvas, glyphs: &Vec<Option<PixelBox>>) -> (at: Option<
    (i32, i32),
>)
    ensures
        at == caption_origin_spec(canvas.width() as int, canvas.height() as int, glyphs@),
{
    let (width, height) = canvas.dimensions();
    caption_origin(width, height, text_bounds(glyphs))
}

} // verus!
