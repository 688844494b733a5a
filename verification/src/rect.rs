//! Rectangles.

use vstd::prelude::*;
use crate::color::{
    emit_fill, emit_stroke, fill_block, lemma_fill_block, lemma_stroke_block, stroke_block,
    ColorMode,
};
use crate::directive::{render, write_directives, Directive};
use crate::markup::{lemma_render_well_nested, markup_well_nested};
use crate::nesting::{
    all_in_range, flat, lemma_flat_well_nested, lemma_well_nested_concat, well_nested,
};
use crate::scalar::{Scalar, FULL_TURN};
use crate::serialize::Serialize;
use crate::transform::{
    clamp_rotation, lemma_transform_encloses, lemma_rotate_directive, lemma_transform_in_range,
    TransformOrigin, TransformState,
};

verus! {

/// The configuration of a rectangle.
#[derive(Clone, Copy, Debug, PartialEq, Eq)]
pub struct RectConfig {
    /// The left edge.
    pub x: Scalar,
    /// The bottom edge.
    pub y: Scalar,
    pub width: Scalar,
    pub height: Scalar,
    /// The width of the outline; zero means no outline.
    pub stroke_width: Scalar,
    pub stroke_color: ColorMode,
    /// The fill colour, if the rectangle is filled.
    pub fill: Option<ColorMode>,
    pub transform: TransformState,
    pub origin: TransformOrigin,
}

impl RectConfig {
    /// Position, size and stroke width are not negative, colour channels and
    /// the rotation lie within their ranges.
    pub open spec fn wf(self) -> bool {
        &&& self.x@ >= 0
        &&& self.y@ >= 0
        &&& self.width@ >= 0
        &&& self.height@ >= 0
        &&& self.stroke_width@ >= 0
        &&& self.stroke_color.in_unit_range()
        &&& (self.fill matches Some(color) ==> color.in_unit_range())
        &&& self.transform.wf()
    }

    /// The horizontal coordinate of the anchor that the origin names.
    pub open spec fn anchor_x(self) -> Scalar {
        match self.origin {
            TransformOrigin::TopLeft | TransformOrigin::BottomLeft => self.x,
            TransformOrigin::TopRight | TransformOrigin::BottomRight => self.x.sum(self.width),
            TransformOrigin::Center => self.x.sum(self.width.halved()),
        }
    }

    /// The vertical coordinate of the anchor that the origin names.
    pub open spec fn anchor_y(self) -> Scalar {
        match self.origin {
            TransformOrigin::BottomLeft | TransformOrigin::BottomRight => self.y,
            TransformOrigin::TopLeft | TransformOrigin::TopRight => self.y.sum(self.height),
            TransformOrigin::Center => self.y.sum(self.height.halved()),
        }
    }

    /// The rectangle's path.
    pub open spec fn path(self) -> Directive {
        Directive::RectPath { x: self.x, y: self.y, width: self.width, height: self.height }
    }

    /// The path, then the fill block, then the stroke block.
    pub open spec fn body(self) -> Seq<Directive> {
        seq![self.path()] + fill_block(self.fill) + stroke_block(
            self.stroke_width,
            self.stroke_color,
        )
    }

    /// The directives of the rectangle: the body between the transform's
    /// prologue and epilogue.
    pub open spec fn directives(self) -> Seq<Directive> {
        self.transform.prologue(self.anchor_x(), self.anchor_y()) + self.body()
            + self.transform.epilogue()
    }

    /// The markup of the rectangle.
    pub open spec fn markup(self) -> Seq<char> {
        render(self.directives())
    }

    /// The configuration of a new rectangle at `(x, y)` with the given size,
    /// negative values raised to zero: no fill, no outline, no transform.
    pub open spec fn initial(x: Scalar, y: Scalar, width: Scalar, height: Scalar) -> RectConfig {
        RectConfig {
            x: x.floored(),
            y: y.floored(),
            width: width.floored(),
            height: height.floored(),
            stroke_width: Scalar { thousandths: 0 },
            stroke_color: ColorMode::black(),
            fill: None,
            transform: TransformState { rotation: None, scale: None },
            origin: TransformOrigin::Center,
        }
    }
}

/// The directives of any rectangle are well nested: every save has exactly
/// one restore behind it, and the stack depth never falls below where it
/// started.
pub proof fn lemma_rect_well_nested(c: RectConfig)
    ensures
        well_nested(c.directives()),
{
    let path = seq![c.path()];
    assert(flat(path));
    lemma_flat_well_nested(path);
    lemma_fill_block(c.fill);
    lemma_stroke_block(c.stroke_width, c.stroke_color);
    lemma_well_nested_concat(path, fill_block(c.fill));
    lemma_well_nested_concat(path + fill_block(c.fill), stroke_block(c.stroke_width, c.stroke_color));
    lemma_transform_encloses(c.transform, c.anchor_x(), c.anchor_y(), c.body());
}

/// A rectangle emits a rotate directive only for a configured rotation whose
/// angle is neither zero nor a full turn, and the directive carries that
/// angle.
pub proof fn lemma_rect_rotate_directive(c: RectConfig)
    ensures
        forall|i: int|
            0 <= i < c.directives().len() && (#[trigger] c.directives()[i]) is Rotate ==> {
                let angle = c.directives()[i]->angle;
                &&& c.transform.rotation == Some(angle)
                &&& angle@ != 0
                &&& angle@ != FULL_TURN
                &&& angle@ != -FULL_TURN
            },
{
    lemma_rotate_directive(c.transform, c.anchor_x(), c.anchor_y());
    let prologue = c.transform.prologue(c.anchor_x(), c.anchor_y());
    let ops = c.directives();
    assert forall|i: int| 0 <= i < ops.len() && (#[trigger] ops[i]) is Rotate implies {
        let angle = ops[i]->angle;
        &&& c.transform.rotation == Some(angle)
        &&& angle@ != 0
        &&& angle@ != FULL_TURN
        &&& angle@ != -FULL_TURN
    } by {
        if i < prologue.len() {
            assert(ops[i] == prologue[i]);
        }
    }
}

/// Read line by line, the markup of any rectangle is well nested: every line
/// that saves the graphics state has exactly one line behind it that
/// restores it, and the depth returns to where it started.
pub proof fn lemma_rect_markup_well_nested(c: RectConfig)
    ensures
        markup_well_nested(c.markup()),
{
    lemma_rect_well_nested(c);
    lemma_render_well_nested(c.directives());
}

/// The directives of a well-formed rectangle carry only colour channels
/// between zero and one, and only rotations within one full turn that are
/// neither zero nor a full turn.
pub proof fn lemma_rect_in_range(c: RectConfig)
    requires
        c.wf(),
    ensures
        all_in_range(c.directives()),
{
    lemma_fill_block(c.fill);
    lemma_stroke_block(c.stroke_width, c.stroke_color);
    lemma_transform_in_range(c.transform, c.anchor_x(), c.anchor_y());
}

/// A rectangle with an optional fill, an optional outline and an optional
/// transform about an anchor of its own.
#[derive(Clone, Copy, Debug)]
pub struct Rect {
    config: RectConfig,
}

impl View for Rect {
    type V = RectConfig;

    closed spec fn view(&self) -> RectConfig {
        self.config
    }
}

impl Rect {
    #[verifier::type_invariant]
    spec fn inv(self) -> bool {
        self.config.wf()
    }

    /// A rectangle at `(x, y)` with the given size; negative values are
    /// raised to zero.
    pub fn new(x: Scalar, y: Scalar, width: Scalar, height: Scalar) -> (rect: Rect)
        ensures
            rect@ == RectConfig::initial(x, y, width, height),
            rect@.wf(),
    {
        Rect {
            config: RectConfig {
                x: x.at_least_zero(),
                y: y.at_least_zero(),
                width: width.at_least_zero(),
                height: height.at_least_zero(),
                stroke_width: Scalar::from_thousandths(0),
                stroke_color: ColorMode::rgb(
                    Scalar::from_thousandths(0),
                    Scalar::from_thousandths(0),
                    Scalar::from_thousandths(0),
                ),
                fill: None,
                transform: TransformState::new(),
                origin: TransformOrigin::Center,
            },
        }
    }

    /// Fills the rectangle with a three-channel colour, each channel limited
    /// to the range from zero to one.
    pub fn fill_rgb(self, r: Scalar, g: Scalar, b: Scalar) -> (rect: Rect)
        ensures
            rect@ == (RectConfig { fill: Some((ColorMode::RGB { r, g, b }).clamped()), ..self@ }),
            rect@.wf(),
    {
        proof {
            use_type_invariant(&self);
        }
        let mut config = self.config;
        config.fill = Some(ColorMode::rgb(r, g, b));
        Rect { config }
    }

    /// Fills the rectangle with a four-channel colour, each channel limited
    /// to the range from zero to one.
    pub fn fill_cmyk(self, c: Scalar, m: Scalar, y: Scalar, k: Scalar) -> (rect: Rect)
        ensures
            rect@ == (RectConfig {
                fill: Some((ColorMode::CMYK { c, m, y, k }).clamped()),
                ..self@
            }),
            rect@.wf(),
    {
        proof {
            use_type_invariant(&self);
        }
        let mut config = self.config;
        config.fill = Some(ColorMode::cmyk(c, m, y, k));
        Rect { config }
    }

    /// Outlines the rectangle with a stroke of `width`, raised to zero if
    /// negative, in a three-channel colour with each channel limited to the
    /// range from zero to one.
    pub fn stroke_rgb(self, width: Scalar, r: Scalar, g: Scalar, b: Scalar) -> (rect: Rect)
        ensures
            rect@ == (RectConfig {
                stroke_width: width.floored(),
                stroke_color: (ColorMode::RGB { r, g, b }).clamped(),
                ..self@
            }),
            rect@.wf(),
    {
        proof {
            use_type_invariant(&self);
        }
        let mut config = self.config;
        config.stroke_width = width.at_least_zero();
        config.stroke_color = ColorMode::rgb(r, g, b);
        Rect { config }
    }

    /// Outlines the rectangle with a stroke of `width`, raised to zero if
    /// negative, in a four-channel colour with each channel limited to the
    /// range from zero to one.
    pub fn stroke_cmyk(self, width: Scalar, c: Scalar, m: Scalar, y: Scalar, k: Scalar) -> (rect:
        Rect)
        ensures
            rect@ == (RectConfig {
                stroke_width: width.floored(),
                stroke_color: (ColorMode::CMYK { c, m, y, k }).clamped(),
                ..self@
            }),
            rect@.wf(),
    {
        proof {
            use_type_invariant(&self);
        }
        let mut config = self.config;
        config.stroke_width = width.at_least_zero();
        config.stroke_color = ColorMode::cmyk(c, m, y, k);
        Rect { config }
    }

    /// Scales the rectangle about its anchor by the factors `x` and `y`,
    /// taken as they are.
    pub fn scale(self, x: Scalar, y: Scalar) -> (rect: Rect)
        ensures
            rect@ == (RectConfig {
                transform: TransformState { rotation: self@.transform.rotation, scale: Some((x, y)) },
                ..self@
            }),
            rect@.wf(),
    {
        proof {
            use_type_invariant(&self);
        }
        let mut config = self.config;
        config.transform = config.transform.with_scale(x, y);
        Rect { config }
    }

    /// Names the anchor of the rectangle's transform.
    pub fn set_orign(self, origin: TransformOrigin) -> (rect: Rect)
        ensures
            rect@ == (RectConfig { origin, ..self@ }),
            rect@.wf(),
    {
        proof {
            use_type_invariant(&self);
        }
        let mut config = self.config;
        config.origin = origin;
        Rect { config }
    }

    /// Rotates the rectangle about its anchor by `angle` degrees, limited to
    /// one full turn either way.
    pub fn rotate(self, angle: Scalar) -> (rect: Rect)
        ensures
            rect@ == (RectConfig {
                transform: TransformState {
                    rotation: Some(clamp_rotation(angle)),
                    scale: self@.transform.scale,
                },
                ..self@
            }),
            rect@.wf(),
    {
        proof {
            use_type_invariant(&self);
        }
        let mut config = self.config;
        config.transform = config.transform.with_rotation(angle);
        Rect { config }
    }

    /// The rectangle's configuration, as construction and the calls since
    /// have left it.
    pub fn config(&self) -> (c: RectConfig)
        ensures
            c == self@,
            c.wf(),
    {
        proof {
            use_type_invariant(self);
        }
        self.config
    }

    /// The directives of the rectangle, in the order they are emitted. They
    /// are well nested and within range.
    pub fn directives(&self) -> (ops: Vec<Directive>)
        ensures
            ops@ == self@.directives(),
            well_nested(ops@),
            all_in_range(ops@),
    {
        proof {
            use_type_invariant(self);
            lemma_rect_well_nested(self.config);
            lemma_rect_in_range(self.config);
        }
        let c = &self.config;
        let anchor_x = match c.origin {
            TransformOrigin::TopLeft | TransformOrigin::BottomLeft => c.x,
            TransformOrigin::TopRight | TransformOrigin::BottomRight => c.x.plus(c.width),
            TransformOrigin::Center => c.x.plus(c.width.half()),
        };
        let anchor_y = match c.origin {
            TransformOrigin::BottomLeft | TransformOrigin::BottomRight => c.y,
            TransformOrigin::TopLeft | TransformOrigin::TopRight => c.y.plus(c.height),
            TransformOrigin::Center => c.y.plus(c.height.half()),
        };
        let mut ops: Vec<Directive> = Vec::new();
        c.transform.emit_prologue(&mut ops, anchor_x, anchor_y);
        ops.push(Directive::RectPath { x: c.x, y: c.y, width: c.width, height: c.height });
        emit_fill(&mut ops, &c.fill);
        emit_stroke(&mut ops, c.stroke_width, &c.stroke_color);
        c.transform.emit_epilogue(&mut ops);
        proof {
            assert(ops@ =~= self@.directives());
        }
        ops
    }
}

impl Serialize for Rect {
    open spec fn markup(&self) -> Seq<char> {
        self@.markup()
    }

    fn to_postscript_string(&self) -> (s: String)
        ensures
            markup_well_nested(s@),
    {
        proof {
            lemma_rect_markup_well_nested(self@);
        }
        let ops = self.directives();
        let mut out = String::new();
        write_directives(&ops, &mut out);
        proof {
            assert(out@ =~= self@.markup());
        }
        out
    }
}

} // verus!
