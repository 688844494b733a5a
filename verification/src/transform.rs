//! Rotation and scaling of a shape about an anchor point of its own.

use vstd::prelude::*;
use crate::directive::Directive;
use crate::nesting::{
    all_in_range, flat, lemma_flat_well_nested, lemma_well_nested_concat,
    lemma_well_nested_enclosed, well_nested,
};
use crate::scalar::{clamp_int, Scalar, FULL_TURN};

verus! {

/// The anchor of a rectangle's transform.
#[derive(Clone, Copy, Debug, PartialEq, Eq, Structural)]
pub enum TransformOrigin {
    Center,
    BottomLeft,
    TopLeft,
    TopRight,
    BottomRight,
}

/// The anchor of a line's transform.
#[derive(Clone, Copy, Debug, PartialEq, Eq, Structural)]
pub enum TransformLineOrigin {
    Left,
    Center,
    Right,
}

/// The angle `angle` limited to one full turn either way.
pub open spec fn clamp_rotation(angle: Scalar) -> Scalar {
    Scalar { thousandths: clamp_int(angle@, -(FULL_TURN as int), FULL_TURN as int) as i64 }
}

/// The rotation and the scale of a shape. Each is either configured or not:
/// a configured scale of one by one is not the same as none.
///
/// The angle is written as it is configured, so a positive angle turns the
/// shape the way the rotate operator does, counter-clockwise. The shape is
/// moved to its anchor, rotated, scaled and moved back, in that order.
#[derive(Clone, Copy, Debug, PartialEq, Eq)]
pub struct TransformState {
    /// The rotation in degrees, if one was configured.
    pub rotation: Option<Scalar>,
    /// The horizontal and vertical scale factors, if a scale was configured.
    pub scale: Option<(Scalar, Scalar)>,
}

impl TransformState {
    /// A rotation or a scale is configured.
    pub open spec fn enabled(self) -> bool {
        self.rotation is Some || self.scale is Some
    }

    /// A configured rotation lies within one full turn either way.
    pub open spec fn wf(self) -> bool {
        self.rotation matches Some(angle) ==> -FULL_TURN <= angle@ <= FULL_TURN
    }

    /// The rotate directive, unless no rotation is configured or the
    /// configured one, of zero or a full turn, has no visible effect.
    pub open spec fn rotate_step(self) -> Seq<Directive> {
        match self.rotation {
            Some(angle) if angle@ != 0 && angle@ != FULL_TURN && angle@ != -FULL_TURN => seq![
                Directive::Rotate { angle },
            ],
            _ => Seq::empty(),
        }
    }

    /// The scale directive, if a scale is configured.
    pub open spec fn scale_step(self) -> Seq<Directive> {
        match self.scale {
            Some((x, y)) => seq![Directive::Scale { x, y }],
            None => Seq::empty(),
        }
    }

    /// The change of coordinates about the anchor: to the anchor, rotate,
    /// scale, and back.
    pub open spec fn steps(self, anchor_x: Scalar, anchor_y: Scalar) -> Seq<Directive> {
        seq![Directive::Translate { x: anchor_x, y: anchor_y }] + self.rotate_step()
            + self.scale_step() + seq![Directive::TranslateBack { x: anchor_x, y: anchor_y }]
    }

    /// What precedes the shape's own markup: nothing when neither rotation
    /// nor scale is configured, else a save and the change of coordinates.
    pub open spec fn prologue(self, anchor_x: Scalar, anchor_y: Scalar) -> Seq<Directive> {
        if self.enabled() {
            seq![Directive::Save] + self.steps(anchor_x, anchor_y)
        } else {
            Seq::empty()
        }
    }

    /// What follows the shape's own markup: the restore that matches the
    /// prologue's save, or nothing when there was none.
    pub open spec fn epilogue(self) -> Seq<Directive> {
        if self.enabled() {
            seq![Directive::Restore]
        } else {
            Seq::empty()
        }
    }

    /// No rotation and no scale.
    pub fn new() -> (t: TransformState)
        ensures
            t.rotation is None,
            t.scale is None,
    {
        TransformState { rotation: None, scale: None }
    }

    /// The state with a rotation of `angle`, limited to one full turn either
    /// way.
    pub fn with_rotation(self, angle: Scalar) -> (t: TransformState)
        ensures
            t.rotation == Some(clamp_rotation(angle)),
            t.scale == self.scale,
            t.wf(),
    {
        TransformState { rotation: Some(angle.clamp_angle()), scale: self.scale }
    }

    /// The state with the scale factors `x` and `y`, taken as they are:
    /// a negative factor mirrors.
    pub fn with_scale(self, x: Scalar, y: Scalar) -> (t: TransformState)
        ensures
            t.rotation == self.rotation,
            t.scale == Some((x, y)),
    {
        TransformState { rotation: self.rotation, scale: Some((x, y)) }
    }

    /// Whether a rotation or a scale is configured.
    pub fn is_enabled(&self) -> (b: bool)
        ensures
            b == self.enabled(),
    {
        self.rotation.is_some() || self.scale.is_some()
    }

    /// Appends the prologue for the anchor `(anchor_x, anchor_y)` to `ops`.
    pub fn emit_prologue(&self, ops: &mut Vec<Directive>, anchor_x: Scalar, anchor_y: Scalar)
        ensures
            final(ops)@ == old(ops)@ + self.prologue(anchor_x, anchor_y),
    {
        if self.is_enabled() {
            ops.push(Directive::Save);
            ops.push(Directive::Translate { x: anchor_x, y: anchor_y });
            match self.rotation {
                Some(angle) => {
                    let t: i64 = angle.thousandths;
                    if t != 0 && t != FULL_TURN && t != -FULL_TURN {
                        ops.push(Directive::Rotate { angle });
                    }
                },
                None => {},
            }
            match self.scale {
                Some((x, y)) => {
                    ops.push(Directive::Scale { x, y });
                },
                None => {},
            }
            ops.push(Directive::TranslateBack { x: anchor_x, y: anchor_y });
        }
        proof {
            assert(ops@ =~= old(ops)@ + self.prologue(anchor_x, anchor_y));
        }
    }

    /// Appends the epilogue to `ops`.
    pub fn emit_epilogue(&self, ops: &mut Vec<Directive>)
        ensures
            final(ops)@ == old(ops)@ + self.epilogue(),
    {
        if self.is_enabled() {
            ops.push(Directive::Restore);
        }
        proof {
            assert(ops@ =~= old(ops)@ + self.epilogue());
        }
    }
}

/// Whatever well-nested markup stands between a transform's prologue and
/// its epilogue, the whole is well nested: the prologue's save, if there is
/// one, has exactly the epilogue's restore.
pub proof fn lemma_transform_encloses(
    t: TransformState,
    anchor_x: Scalar,
    anchor_y: Scalar,
    body: Seq<Directive>,
)
    requires
        well_nested(body),
    ensures
        well_nested(t.prologue(anchor_x, anchor_y) + body + t.epilogue()),
{
    let whole = t.prologue(anchor_x, anchor_y) + body + t.epilogue();
    if t.enabled() {
        let steps = t.steps(anchor_x, anchor_y);
        assert(flat(steps));
        lemma_flat_well_nested(steps);
        lemma_well_nested_concat(steps, body);
        lemma_well_nested_enclosed(steps + body);
        assert(whole =~= seq![Directive::Save] + (steps + body) + seq![Directive::Restore]);
    } else {
        assert(whole =~= body);
    }
}

/// A rotate directive stands in the prologue exactly when a rotation is
/// configured whose angle is neither zero nor a full turn; it then carries
/// that angle. A rotation of exactly zero or of a full turn either way
/// emits none.
pub proof fn lemma_rotate_directive(t: TransformState, anchor_x: Scalar, anchor_y: Scalar)
    ensures
        forall|i: int|
            0 <= i < t.prologue(anchor_x, anchor_y).len() && (#[trigger] t.prologue(
                anchor_x,
                anchor_y,
            )[i]) is Rotate ==> {
                let angle = t.prologue(anchor_x, anchor_y)[i]->angle;
                &&& t.rotation == Some(angle)
                &&& angle@ != 0
                &&& angle@ != FULL_TURN
                &&& angle@ != -FULL_TURN
            },
        forall|angle: Scalar|
            t.rotation == Some(angle) && angle@ != 0 && angle@ != FULL_TURN && angle@
                != -FULL_TURN ==> t.prologue(anchor_x, anchor_y)[2] == (Directive::Rotate {
                angle,
            }),
        forall|i: int| 0 <= i < t.epilogue().len() ==> !((#[trigger] t.epilogue()[i]) is Rotate),
{
}

/// A transform whose rotation is within range emits only directives within
/// range: a rotate directive carries an angle within one full turn that is
/// neither zero nor a full turn.
pub proof fn lemma_transform_in_range(t: TransformState, anchor_x: Scalar, anchor_y: Scalar)
    requires
        t.wf(),
    ensures
        all_in_range(t.prologue(anchor_x, anchor_y)),
        all_in_range(t.epilogue()),
{
}

} // verus!
