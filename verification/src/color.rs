//! Paint colours in two colour spaces, and the fill and stroke blocks that
//! apply them.

use vstd::prelude::*;
use crate::directive::Directive;
use crate::nesting::{
    all_in_range, flat, lemma_flat_well_nested, lemma_well_nested_enclosed, well_nested,
};
use crate::scalar::{clamp_int, Scalar, UNIT};

verus! {

/// A paint colour: three channels of red, green and blue, or four of cyan,
/// magenta, yellow and black. There is no conversion between the two.
#[derive(Clone, Copy, Debug, PartialEq, Eq, Structural)]
pub enum ColorMode {
    CMYK { c: Scalar, m: Scalar, y: Scalar, k: Scalar },
    RGB { r: Scalar, g: Scalar, b: Scalar },
}

/// The channel value `v` limited to the range from zero to one unit.
pub open spec fn clamp_channel(v: Scalar) -> Scalar {
    Scalar { thousandths: clamp_int(v@, 0, UNIT as int) as i64 }
}

impl ColorMode {
    /// Every channel lies between zero and one unit.
    pub open spec fn in_unit_range(self) -> bool {
        match self {
            ColorMode::RGB { r, g, b } => {
                &&& 0 <= r@ <= UNIT
                &&& 0 <= g@ <= UNIT
                &&& 0 <= b@ <= UNIT
            },
            ColorMode::CMYK { c, m, y, k } => {
                &&& 0 <= c@ <= UNIT
                &&& 0 <= m@ <= UNIT
                &&& 0 <= y@ <= UNIT
                &&& 0 <= k@ <= UNIT
            },
        }
    }

    /// The colour in the same space with every channel limited to its range.
    pub open spec fn clamped(self) -> ColorMode {
        match self {
            ColorMode::RGB { r, g, b } => ColorMode::RGB {
                r: clamp_channel(r),
                g: clamp_channel(g),
                b: clamp_channel(b),
            },
            ColorMode::CMYK { c, m, y, k } => ColorMode::CMYK {
                c: clamp_channel(c),
                m: clamp_channel(m),
                y: clamp_channel(y),
                k: clamp_channel(k),
            },
        }
    }

    /// The directive that sets the colour: the operator of its space with
    /// its channels as operands.
    pub open spec fn directive(self) -> Directive {
        match self {
            ColorMode::RGB { r, g, b } => Directive::RgbColor { r, g, b },
            ColorMode::CMYK { c, m, y, k } => Directive::CmykColor { c, m, y, k },
        }
    }

    /// Black in the three-channel space, the colour of a stroke that was
    /// given none.
    pub open spec fn black() -> ColorMode {
        ColorMode::RGB {
            r: Scalar { thousandths: 0 },
            g: Scalar { thousandths: 0 },
            b: Scalar { thousandths: 0 },
        }
    }

    /// A three-channel colour, each channel limited to its range.
    pub fn rgb(r: Scalar, g: Scalar, b: Scalar) -> (color: ColorMode)
        ensures
            color == (ColorMode::RGB { r, g, b }).clamped(),
            color.in_unit_range(),
    {
        ColorMode::RGB { r: r.clamp_unit(), g: g.clamp_unit(), b: b.clamp_unit() }
    }

    /// A four-channel colour, each channel limited to its range.
    pub fn cmyk(c: Scalar, m: Scalar, y: Scalar, k: Scalar) -> (color: ColorMode)
        ensures
            color == (ColorMode::CMYK { c, m, y, k }).clamped(),
            color.in_unit_range(),
    {
        ColorMode::CMYK {
            c: c.clamp_unit(),
            m: m.clamp_unit(),
            y: y.clamp_unit(),
            k: k.clamp_unit(),
        }
    }

    /// The colour with every channel limited to its range.
    pub fn clamp(self) -> (color: ColorMode)
        ensures
            color == self.clamped(),
            color.in_unit_range(),
    {
        match self {
            ColorMode::RGB { r, g, b } => ColorMode::rgb(r, g, b),
            ColorMode::CMYK { c, m, y, k } => ColorMode::cmyk(c, m, y, k),
        }
    }

    /// The directive that sets the colour.
    pub fn emit(&self) -> (d: Directive)
        ensures
            d == self.directive(),
    {
        match *self {
            ColorMode::RGB { r, g, b } => Directive::RgbColor { r, g, b },
            ColorMode::CMYK { c, m, y, k } => Directive::CmykColor { c, m, y, k },
        }
    }
}

/// The fill block: nothing without a fill colour; with one, the colour and
/// the fill operator inside a state frame of their own.
pub open spec fn fill_block(fill: Option<ColorMode>) -> Seq<Directive> {
    match fill {
        None => Seq::empty(),
        Some(color) => seq![Directive::Save, color.directive(), Directive::Fill, Directive::Restore],
    }
}

/// The stroke block: nothing for a width of zero; otherwise the width, the
/// colour and the stroke operator inside a state frame of their own.
pub open spec fn stroke_block(width: Scalar, color: ColorMode) -> Seq<Directive> {
    if width@ > 0 {
        seq![
            Directive::Save,
            Directive::LineWidth { width },
            color.directive(),
            Directive::Stroke,
            Directive::Restore,
        ]
    } else {
        Seq::empty()
    }
}

/// Appends the fill block to `ops`.
pub fn emit_fill(ops: &mut Vec<Directive>, fill: &Option<ColorMode>)
    ensures
        final(ops)@ == old(ops)@ + fill_block(*fill),
{
    match fill {
        None => {},
        Some(color) => {
            ops.push(Directive::Save);
            ops.push(color.emit());
            ops.push(Directive::Fill);
            ops.push(Directive::Restore);
        },
    }
    proof {
        assert(ops@ =~= old(ops)@ + fill_block(*fill));
    }
}

/// Appends the stroke block to `ops`.
pub fn emit_stroke(ops: &mut Vec<Directive>, width: Scalar, color: &ColorMode)
    ensures
        final(ops)@ == old(ops)@ + stroke_block(width, *color),
{
    if width.thousandths > 0 {
        ops.push(Directive::Save);
        ops.push(Directive::LineWidth { width });
        ops.push(color.emit());
        ops.push(Directive::Stroke);
        ops.push(Directive::Restore);
    }
    proof {
        assert(ops@ =~= old(ops)@ + stroke_block(width, *color));
    }
}

/// The fill block saves and restores the graphics state in step, and sets
/// only channels within their range when the fill colour is.
pub proof fn lemma_fill_block(fill: Option<ColorMode>)
    ensures
        well_nested(fill_block(fill)),
        (fill matches Some(color) ==> color.in_unit_range()) ==> all_in_range(fill_block(fill)),
{
    match fill {
        None => {
            lemma_flat_well_nested(fill_block(fill));
        },
        Some(color) => {
            let inner = seq![color.directive(), Directive::Fill];
            assert(flat(inner));
            lemma_flat_well_nested(inner);
            lemma_well_nested_enclosed(inner);
            assert(fill_block(fill) =~= seq![Directive::Save] + inner + seq![Directive::Restore]);
        },
    }
}

/// The stroke block saves and restores the graphics state in step, and sets
/// only channels within their range when the stroke colour is.
pub proof fn lemma_stroke_block(width: Scalar, color: ColorMode)
    ensures
        well_nested(stroke_block(width, color)),
        color.in_unit_range() ==> all_in_range(stroke_block(width, color)),
{
    if width@ > 0 {
        let inner = seq![Directive::LineWidth { width }, color.directive(), Directive::Stroke];
        assert(flat(inner));
        lemma_flat_well_nested(inner);
        lemma_well_nested_enclosed(inner);
        assert(stroke_block(width, color) =~= seq![Directive::Save] + inner
            + seq![Directive::Restore]);
    } else {
        lemma_flat_well_nested(stroke_block(width, color));
    }
}

} // verus!
