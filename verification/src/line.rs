//! Horizontal lines.

use vstd::prelude::*;
use crate::color::{emit_stroke, lemma_stroke_block, stroke_block, ColorMode};
use crate::directive::{render, write_directives, Directive};
use crate::markup::{lemma_render_well_nested, markup_well_nested};
use crate::nesting::{
    all_in_range, flat, lemma_flat_well_nested, lemma_well_nested_concat, well_nested,
};
use crate::scalar::{Scalar, FULL_TURN};
use crate::serialize::Serialize;
use crate::transform::{
    clamp_rotation, lemma_transform_encloses, lemma_rotate_directive, lemma_transform_in_range,
    TransformLineOrigin, TransformState,
};

verus! {

/// The configuration of a line.
#[derive(Clone, Copy, Debug, PartialEq, Eq)]
pub struct LineConfig {
    /// The start of the line.
    pub x: Scalar,
    pub y: Scalar,
    pub length: Scalar,
    /// The width of the stroke; zero means that nothing is stroked.
    pub stroke_width: Scalar,
    pub stroke_color: ColorMode,
    pub transform: TransformState,
    pub origin: TransformLineOrigin,
}

impl LineConfig {
    /// Position, length and stroke width are not negative, colour channels
    /// and the rotation lie within their ranges.
    pub open spec fn wf(self) -> bool {
        &&& self.x@ >= 0
        &&& self.y@ >= 0
        &&& self.length@ >= 0
        &&& self.stroke_width@ >= 0
        &&& self.stroke_color.in_unit_range()
        &&& self.transform.wf()
    }

    /// The horizontal coordinate of the anchor that the origin names: the
    /// start, the middle or the end of the line.
    pub open spec fn anchor_x(self) -> Scalar {
        match self.origin {
            TransformLineOrigin::Left => self.x,
            TransformLineOrigin::Center => self.x.sum(self.length.halved()),
            TransformLineOrigin::Right => self.x.sum(self.length),
        }
    }

    /// The vertical coordinate of the anchor: half the stroke width above
    /// the line's own.
    pub open spec fn anchor_y(self) -> Scalar {
        self.y.sum(self.stroke_width.halved())
    }

    /// The line's path.
    pub open spec fn path(self) -> Directive {
        Directive::LinePath { x: self.x, y: self.y, length: self.length }
    }

    /// The path, then the stroke block.
    pub open spec fn body(self) -> Seq<Directive> {
        seq![self.path()] + stroke_block(self.stroke_width, self.stroke_color)
    }

    /// The directives of the line: the body between the transform's prologue
    /// and epilogue.
    pub open spec fn directives(self) -> Seq<Directive> {
        self.transform.prologue(self.anchor_x(), self.anchor_y()) + self.body()
            + self.transform.epilogue()
    }

    /// The markup of the line.
    pub open spec fn markup(self) -> Seq<char> {
        render(self.directives())
    }

    /// The configuration of a new line from `(x, y)` with the given length,
    /// negative values raised to zero: a black stroke one unit wide and no
    /// transform.
    pub open spec fn initial(x: Scalar, y: Scalar, length: Scalar) -> LineConfig {
        LineConfig {
            x: x.floored(),
            y: y.floored(),
            length: length.floored(),
            stroke_width: Scalar { thousandths: 1000 },
            stroke_color: ColorMode::black(),
            transform: TransformState { rotation: None, scale: None },
            origin: TransformLineOrigin::Center,
        }
    }
}

/// The directives of any line are well nested: every save has exactly one
/// restore behind it, and the stack depth never falls below where it
/// started.
pub proof fn lemma_line_well_nested(c: LineConfig)
    ensures
        well_nested(c.directives()),
{
    let path = seq![c.path()];
    assert(flat(path));
    lemma_flat_well_nested(path);
    lemma_stroke_block(c.stroke_width, c.stroke_color);
    lemma_well_nested_concat(path, stroke_block(c.stroke_width, c.stroke_color));
    lemma_transform_encloses(c.transform, c.anchor_x(), c.anchor_y(), c.body());
}

/// A line emits a rotate directive only for a configured rotation whose
/// angle is neither zero nor a full turn, and the directive carries that
/// angle.
pub proof fn lemma_line_rotate_directive(c: LineConfig)
    ensures
        forall|i: int|
            0 <= i < c.directives().len() && (#[trigger] c.directives()[i]) is Rotate ==> {
                let angle = c.directives()[i]->angle;
                &&& c.transform.rotation == Some(angle)
                &&& angle@ != 0
                &&& angle@ != FULL_TURN
                &&& angle@ != -FULL_TURN
            },
{
    lemma_rotate_directive(c.transform, c.anchor_x(), c.anchor_y());
    let prologue = c.transform.prologue(c.anchor_x(), c.anchor_y());
    let ops = c.directives();
    assert forall|i: int| 0 <= i < ops.len() && (#[trigger] ops[i]) is Rotate implies {
        let angle = ops[i]->angle;
        &&& c.transform.rotation == Some(angle)
        &&& angle@ != 0
        &&& angle@ != FULL_TURN
        &&& angle@ != -FULL_TURN
    } by {
        if i < prologue.len() {
            assert(ops[i] == prologue[i]);
        }
    }
}

/// Read line by line, the markup of any line is well nested: every line
/// that saves the graphics state has exactly one line behind it that
/// restores it, and the depth returns to where it started.
pub proof fn lemma_line_markup_well_nested(c: LineConfig)
    ensures
        markup_well_nested(c.markup()),
{
    lemma_line_well_nested(c);
    lemma_render_well_nested(c.directives());
}

/// The directives of a well-formed line carry only colour channels between
/// zero and one, and only rotations within one full turn that are neither
/// zero nor a full turn.
pub proof fn lemma_line_in_range(c: LineConfig)
    requires
        c.wf(),
    ensures
        all_in_range(c.directives()),
{
    lemma_stroke_block(c.stroke_width, c.stroke_color);
    lemma_transform_in_range(c.transform, c.anchor_x(), c.anchor_y());
}

/// A horizontal line with a stroke and an optional transform about an
/// anchor of its own.
#[derive(Clone, Copy, Debug)]
pub struct Line {
    config: LineConfig,
}

impl View for Line {
    type V = LineConfig;

    closed spec fn view(&self) -> LineConfig {
        self.config
    }
}

impl Line {
    #[verifier::type_invariant]
    spec fn inv(self) -> bool {
        self.config.wf()
    }

    /// A line from `(x, y)` with the given length; negative values are
    /// raised to zero.
    pub fn new(x: Scalar, y: Scalar, length: Scalar) -> (line: Line)
        ensures
            line@ == LineConfig::initial(x, y, length),
            line@.wf(),
    {
        Line {
            config: LineConfig {
                x: x.at_least_zero(),
                y: y.at_least_zero(),
                length: length.at_least_zero(),
                stroke_width: Scalar::from_thousandths(1000),
                stroke_color: ColorMode::rgb(
                    Scalar::from_thousandths(0),
                    Scalar::from_thousandths(0),
                    Scalar::from_thousandths(0),
                ),
                transform: TransformState::new(),
                origin: TransformLineOrigin::Center,
            },
        }
    }

    /// Strokes the line with a width of `width`, raised to zero if negative,
    /// in a three-channel colour with each channel limited to the range from
    /// zero to one.
    pub fn stroke_rgb(self, width: Scalar, r: Scalar, g: Scalar, b: Scalar) -> (line: Line)
        ensures
            line@ == (LineConfig {
                stroke_width: width.floored(),
                stroke_color: (ColorMode::RGB { r, g, b }).clamped(),
                ..self@
            }),
            line@.wf(),
    {
        proof {
            use_type_invariant(&self);
        }
        let mut config = self.config;
        config.stroke_width = width.at_least_zero();
        config.stroke_color = ColorMode::rgb(r, g, b);
        Line { config }
    }

    /// Strokes the line with a width of `width`, raised to zero if negative,
    /// in a four-channel colour with each channel limited to the range from
    /// zero to one.
    pub fn stroke_cmyk(self, width: Scalar, c: Scalar, m: Scalar, y: Scalar, k: Scalar) -> (line:
        Line)
        ensures
            line@ == (LineConfig {
                stroke_width: width.floored(),
                stroke_color: (ColorMode::CMYK { c, m, y, k }).clamped(),
                ..self@
            }),
            line@.wf(),
    {
        proof {
            use_type_invariant(&self);
        }
        let mut config = self.config;
        config.stroke_width = width.at_least_zero();
        config.stroke_color = ColorMode::cmyk(c, m, y, k);
        Line { config }
    }

    /// Scales the line about its anchor by the factors `x` and `y`, taken as
    /// they are.
    pub fn scale(self, x: Scalar, y: Scalar) -> (line: Line)
        ensures
            line@ == (LineConfig {
                transform: TransformState { rotation: self@.transform.rotation, scale: Some((x, y)) },
                ..self@
            }),
            line@.wf(),
    {
        proof {
            use_type_invariant(&self);
        }
        let mut config = self.config;
        config.transform = config.transform.with_scale(x, y);
        Line { config }
    }

    /// Names the anchor of the line's transform.
    pub fn set_orign(self, origin: TransformLineOrigin) -> (line: Line)
        ensures
            line@ == (LineConfig { origin, ..self@ }),
            line@.wf(),
    {
        proof {
            use_type_invariant(&self);
        }
        let mut config = self.config;
        config.origin = origin;
        Line { config }
    }

    /// Rotates the line about its anchor by `angle` degrees, limited to one
    /// full turn either way.
    pub fn rotate(self, angle: Scalar) -> (line: Line)
        ensures
            line@ == (LineConfig {
                transform: TransformState {
                    rotation: Some(clamp_rotation(angle)),
                    scale: self@.transform.scale,
                },
                ..self@
            }),
            line@.wf(),
    {
        proof {
            use_type_invariant(&self);
        }
        let mut config = self.config;
        config.transform = config.transform.with_rotation(angle);
        Line { config }
    }

    /// The line's configuration, as construction and the calls since have
    /// left it.
    pub fn config(&self) -> (c: LineConfig)
        ensures
            c == self@,
            c.wf(),
    {
        proof {
            use_type_invariant(self);
        }
        self.config
    }

    /// The directives of the line, in the order they are emitted. They are
    /// well nested and within range.
    pub fn directives(&self) -> (ops: Vec<Directive>)
        ensures
            ops@ == self@.directives(),
            well_nested(ops@),
            all_in_range(ops@),
    {
        proof {
            use_type_invariant(self);
            lemma_line_well_nested(self.config);
            lemma_line_in_range(self.config);
        }
        let c = &self.config;
        let anchor_x = match c.origin {
            TransformLineOrigin::Left => c.x,
            TransformLineOrigin::Center => c.x.plus(c.length.half()),
            TransformLineOrigin::Right => c.x.plus(c.length),
        };
        let anchor_y = c.y.plus(c.stroke_width.half());
        let mut ops: Vec<Directive> = Vec::new();
        c.transform.emit_prologue(&mut ops, anchor_x, anchor_y);
        ops.push(Directive::LinePath { x: c.x, y: c.y, length: c.length });
        emit_stroke(&mut ops, c.stroke_width, &c.stroke_color);
        c.transform.emit_epilogue(&mut ops);
        proof {
            assert(ops@ =~= self@.directives());
        }
        ops
    }
}

impl Serialize for Line {
    open spec fn markup(&self) -> Seq<char> {
        self@.markup()
    }

    fn to_postscript_string(&self) -> (s: String)
        ensures
            markup_well_nested(s@),
    {
        proof {
            lemma_line_markup_well_nested(self@);
        }
        let ops = self.directives();
        let mut out = String::new();
        write_directives(&ops, &mut out);
        proof {
            assert(out@ =~= self@.markup());
        }
        out
    }
}

} // verus!
