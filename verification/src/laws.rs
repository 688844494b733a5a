//! What holds of the shapes whatever they are configured with.

use vstd::prelude::*;
use crate::color::ColorMode;
use crate::line::{Line, LineConfig};
use crate::page::Page;
use crate::rect::{Rect, RectConfig};
use crate::scalar::{Scalar, FULL_TURN};
use crate::serialize::Serialize;

verus! {

/// Serialising is repeatable: two values with the same markup serialise to
/// the same text, whenever and however often they are serialised.
pub proof fn lemma_serialize_repeatable<T: Serialize>(a: &T, b: &T, first: String, second: String)
    requires
        a.markup() == b.markup(),
        call_ensures(T::to_postscript_string, (a,), first),
        call_ensures(T::to_postscript_string, (b,), second),
    ensures
        first@ == second@,
{
}

/// Two rectangles of the same configuration have the same markup.
pub proof fn lemma_rect_markup_by_configuration(a: Rect, b: Rect)
    requires
        a@ == b@,
    ensures
        a.markup() == b.markup(),
{
}

/// Two lines of the same configuration have the same markup.
pub proof fn lemma_line_markup_by_configuration(a: Line, b: Line)
    requires
        a@ == b@,
    ensures
        a.markup() == b.markup(),
{
}

/// A channel of a colour that was limited to its range lies between zero
/// and one unit, whatever was given.
pub proof fn lemma_clamped_color_in_range(color: ColorMode)
    ensures
        color.clamped().in_unit_range(),
        color.in_unit_range() ==> color.clamped() == color,
{
    match color {
        ColorMode::RGB { r, g, b } => {
            if color.in_unit_range() {
                assert(color.clamped() == color);
            }
        },
        ColorMode::CMYK { c, m, y, k } => {
            if color.in_unit_range() {
                assert(color.clamped() == color);
            }
        },
    }
}

/// What is read from a rectangle right after its fill was set is the
/// colour limited to its range, not the colour given.
pub proof fn lemma_rect_fill_round_trip(
    before: Rect,
    r: Scalar,
    g: Scalar,
    b: Scalar,
    after: Rect,
    seen: RectConfig,
)
    requires
        call_ensures(Rect::fill_rgb, (before, r, g, b), after),
        call_ensures(Rect::config, (&after,), seen),
    ensures
        seen.fill == Some((ColorMode::RGB { r, g, b }).clamped()),
        seen.fill->0.in_unit_range(),
{
}

/// What is read from a rectangle right after its four-channel fill was set
/// is the colour limited to its range.
pub proof fn lemma_rect_fill_cmyk_round_trip(
    before: Rect,
    c: Scalar,
    m: Scalar,
    y: Scalar,
    k: Scalar,
    after: Rect,
    seen: RectConfig,
)
    requires
        call_ensures(Rect::fill_cmyk, (before, c, m, y, k), after),
        call_ensures(Rect::config, (&after,), seen),
    ensures
        seen.fill == Some((ColorMode::CMYK { c, m, y, k }).clamped()),
        seen.fill->0.in_unit_range(),
{
}

/// What is read from a rectangle right after its stroke was set is the
/// width raised to zero and the colour limited to its range.
pub proof fn lemma_rect_stroke_round_trip(
    before: Rect,
    width: Scalar,
    r: Scalar,
    g: Scalar,
    b: Scalar,
    after: Rect,
    seen: RectConfig,
)
    requires
        call_ensures(Rect::stroke_rgb, (before, width, r, g, b), after),
        call_ensures(Rect::config, (&after,), seen),
    ensures
        seen.stroke_width == width.floored(),
        seen.stroke_width@ >= 0,
        seen.stroke_color == (ColorMode::RGB { r, g, b }).clamped(),
        seen.stroke_color.in_unit_range(),
{
}

/// What is read from a rectangle right after its four-channel stroke was
/// set is the width raised to zero and the colour limited to its range.
pub proof fn lemma_rect_stroke_cmyk_round_trip(
    before: Rect,
    width: Scalar,
    c: Scalar,
    m: Scalar,
    y: Scalar,
    k: Scalar,
    after: Rect,
    seen: RectConfig,
)
    requires
        call_ensures(Rect::stroke_cmyk, (before, width, c, m, y, k), after),
        call_ensures(Rect::config, (&after,), seen),
    ensures
        seen.stroke_width == width.floored(),
        seen.stroke_width@ >= 0,
        seen.stroke_color == (ColorMode::CMYK { c, m, y, k }).clamped(),
        seen.stroke_color.in_unit_range(),
{
}

/// What is read from a rectangle right after it was rotated is the angle
/// limited to one full turn either way.
pub proof fn lemma_rect_rotate_round_trip(before: Rect, angle: Scalar, after: Rect, seen: RectConfig)
    requires
        call_ensures(Rect::rotate, (before, angle), after),
        call_ensures(Rect::config, (&after,), seen),
    ensures
        seen.transform.rotation matches Some(turned) && -FULL_TURN <= turned@ <= FULL_TURN && (
        -FULL_TURN <= angle@ <= FULL_TURN ==> turned == angle) && (angle@ > FULL_TURN ==> turned@
            == FULL_TURN) && (angle@ < -FULL_TURN ==> turned@ == -FULL_TURN),
{
}

/// What is read from a rectangle right after it was scaled is the pair of
/// factors as given.
pub proof fn lemma_rect_scale_round_trip(
    before: Rect,
    x: Scalar,
    y: Scalar,
    after: Rect,
    seen: RectConfig,
)
    requires
        call_ensures(Rect::scale, (before, x, y), after),
        call_ensures(Rect::config, (&after,), seen),
    ensures
        seen.transform.scale == Some((x, y)),
{
}

/// What is read from a line right after its stroke was set is the width
/// raised to zero and the colour limited to its range.
pub proof fn lemma_line_stroke_round_trip(
    before: Line,
    width: Scalar,
    r: Scalar,
    g: Scalar,
    b: Scalar,
    after: Line,
    seen: LineConfig,
)
    requires
        call_ensures(Line::stroke_rgb, (before, width, r, g, b), after),
        call_ensures(Line::config, (&after,), seen),
    ensures
        seen.stroke_width == width.floored(),
        seen.stroke_width@ >= 0,
        seen.stroke_color == (ColorMode::RGB { r, g, b }).clamped(),
        seen.stroke_color.in_unit_range(),
{
}

/// What is read from a line right after its four-channel stroke was set is
/// the width raised to zero and the colour limited to its range.
pub proof fn lemma_line_stroke_cmyk_round_trip(
    before: Line,
    width: Scalar,
    c: Scalar,
    m: Scalar,
    y: Scalar,
    k: Scalar,
    after: Line,
    seen: LineConfig,
)
    requires
        call_ensures(Line::stroke_cmyk, (before, width, c, m, y, k), after),
        call_ensures(Line::config, (&after,), seen),
    ensures
        seen.stroke_width == width.floored(),
        seen.stroke_width@ >= 0,
        seen.stroke_color == (ColorMode::CMYK { c, m, y, k }).clamped(),
        seen.stroke_color.in_unit_range(),
{
}

/// What is read from a line right after it was rotated is the angle limited
/// to one full turn either way.
pub proof fn lemma_line_rotate_round_trip(before: Line, angle: Scalar, after: Line, seen: LineConfig)
    requires
        call_ensures(Line::rotate, (before, angle), after),
        call_ensures(Line::config, (&after,), seen),
    ensures
        seen.transform.rotation matches Some(turned) && -FULL_TURN <= turned@ <= FULL_TURN && (
        -FULL_TURN <= angle@ <= FULL_TURN ==> turned == angle) && (angle@ > FULL_TURN ==> turned@
            == FULL_TURN) && (angle@ < -FULL_TURN ==> turned@ == -FULL_TURN),
{
}

/// What is read from a line right after it was scaled is the pair of
/// factors as given.
pub proof fn lemma_line_scale_round_trip(
    before: Line,
    x: Scalar,
    y: Scalar,
    after: Line,
    seen: LineConfig,
)
    requires
        call_ensures(Line::scale, (before, x, y), after),
        call_ensures(Line::config, (&after,), seen),
    ensures
        seen.transform.scale == Some((x, y)),
{
}

/// The sides read from a new page are the sides given, raised to one where
/// they were less.
pub proof fn lemma_page_size_round_trip(
    width: i32,
    height: i32,
    page: Page,
    seen_width: i32,
    seen_height: i32,
)
    requires
        call_ensures(Page::new, (width, height), page),
        call_ensures(Page::width, (&page,), seen_width),
        call_ensures(Page::height, (&page,), seen_height),
    ensures
        seen_width == if width < 1 { 1 } else { width as int },
        seen_height == if height < 1 { 1 } else { height as int },
{
}

} // verus!
