//! The directives a shape emits, their text, and the graphics-state
//! discipline that a sequence of them keeps.

use vstd::prelude::*;
use crate::scalar::{Scalar, FULL_TURN, UNIT};
use crate::text::{append_text, push_text};

verus! {

/// One line of shape markup.
#[derive(Clone, Copy, Debug, PartialEq, Eq, Structural)]
pub enum Directive {
    /// Saves the graphics state.
    Save,
    /// Restores the graphics state saved last.
    Restore,
    /// Moves the coordinate system to the anchor point.
    Translate { x: Scalar, y: Scalar },
    /// Moves the coordinate system back from the anchor point; each
    /// magnitude is written behind a minus sign.
    TranslateBack { x: Scalar, y: Scalar },
    /// Rotates the coordinate system by an angle in degrees.
    Rotate { angle: Scalar },
    /// Scales the coordinate system, each axis by its own factor.
    Scale { x: Scalar, y: Scalar },
    /// The closed path of a rectangle, drawn from its corner by four deltas.
    RectPath { x: Scalar, y: Scalar, width: Scalar, height: Scalar },
    /// The path of a horizontal line, drawn from its start by one delta.
    LinePath { x: Scalar, y: Scalar, length: Scalar },
    /// Sets the stroke width.
    LineWidth { width: Scalar },
    /// Sets a three-channel colour.
    RgbColor { r: Scalar, g: Scalar, b: Scalar },
    /// Sets a four-channel colour.
    CmykColor { c: Scalar, m: Scalar, y: Scalar, k: Scalar },
    /// Fills the current path.
    Fill,
    /// Strokes the current path.
    Stroke,
}

/// A single space.
pub open spec fn sp() -> Seq<char> {
    seq![' ']
}

/// A single minus sign.
pub open spec fn minus() -> Seq<char> {
    seq!['-']
}

/// An operand of a directive: the quantity's text and one space.
pub open spec fn operand(s: Scalar) -> Seq<char> {
    s.text() + sp()
}

/// An operand written behind a minus sign.
pub open spec fn negated(s: Scalar) -> Seq<char> {
    minus() + s.text() + sp()
}

/// The line terminator.
pub open spec fn newline() -> Seq<char> {
    seq!['\n']
}

impl Directive {
    /// The operator that ends the directive's line.
    pub open spec fn operator(self) -> Seq<char> {
        match self {
            Directive::Save => "gsave"@,
            Directive::Restore => "grestore"@,
            Directive::Translate { .. } => "translate"@,
            Directive::TranslateBack { .. } => "translate"@,
            Directive::Rotate { .. } => "rotate"@,
            Directive::Scale { .. } => "scale"@,
            Directive::RectPath { .. } => "rect"@,
            Directive::LinePath { .. } => "line"@,
            Directive::LineWidth { .. } => "setlinewidth"@,
            Directive::RgbColor { .. } => "setrgbcolor"@,
            Directive::CmykColor { .. } => "setcmykcolor"@,
            Directive::Fill => "fill"@,
            Directive::Stroke => "stroke"@,
        }
    }

    /// The operands in front of the operator, each followed by one space.
    pub open spec fn operands(self) -> Seq<char> {
        match self {
            Directive::Save | Directive::Restore | Directive::Fill | Directive::Stroke => {
                Seq::empty()
            },
            Directive::Translate { x, y } => operand(x) + operand(y),
            Directive::TranslateBack { x, y } => negated(x) + negated(y),
            Directive::Rotate { angle } => operand(angle),
            Directive::Scale { x, y } => operand(x) + operand(y),
            Directive::RectPath { x, y, width, height } => {
                negated(width) + "0 0 "@ + negated(height) + operand(width) + "0 0 "@
                    + operand(height) + operand(x) + operand(y)
            },
            Directive::LinePath { x, y, length } => {
                operand(length) + "0 "@ + operand(x) + operand(y)
            },
            Directive::LineWidth { width } => operand(width),
            Directive::RgbColor { r, g, b } => operand(r) + operand(g) + operand(b),
            Directive::CmykColor { c, m, y, k } => {
                operand(c) + operand(m) + operand(y) + operand(k)
            },
        }
    }

    /// The directive's line of markup, without its terminator.
    pub open spec fn line(self) -> Seq<char> {
        self.operands() + self.operator()
    }

    /// How the directive changes the depth of the graphics-state stack.
    pub open spec fn depth_change(self) -> int {
        match self {
            Directive::Save => 1,
            Directive::Restore => -1,
            _ => 0,
        }
    }

    /// Colour channels lie between zero and one unit, and a rotation is
    /// within one full turn either way and has a visible effect.
    pub open spec fn in_range(self) -> bool {
        match self {
            Directive::RgbColor { r, g, b } => {
                &&& 0 <= r@ <= UNIT
                &&& 0 <= g@ <= UNIT
                &&& 0 <= b@ <= UNIT
            },
            Directive::CmykColor { c, m, y, k } => {
                &&& 0 <= c@ <= UNIT
                &&& 0 <= m@ <= UNIT
                &&& 0 <= y@ <= UNIT
                &&& 0 <= k@ <= UNIT
            },
            Directive::Rotate { angle } => {
                &&& -FULL_TURN <= angle@ <= FULL_TURN
                &&& angle@ != 0
                &&& angle@ != FULL_TURN
                &&& angle@ != -FULL_TURN
            },
            _ => true,
        }
    }

    /// Appends the directive's line and its terminator to `out`.
    pub fn write_to(&self, out: &mut String)
        ensures
            final(out)@ == old(out)@ + self.line() + newline(),
    {
        let ghost base = out@;
        match *self {
            Directive::Save => {
                push_text(out, "gsave");
            },
            Directive::Restore => {
                push_text(out, "grestore");
            },
            Directive::Translate { x, y } => {
                first_operand(out, &x);
                next_operand(out, Ghost(base), Ghost(operand(x)), &y);
                append_text(out, Ghost(base), Ghost(self.operands()), "translate");
            },
            Directive::TranslateBack { x, y } => {
                first_negated(out, &x);
                next_negated(out, Ghost(base), Ghost(negated(x)), &y);
                append_text(out, Ghost(base), Ghost(self.operands()), "translate");
            },
            Directive::Rotate { angle } => {
                first_operand(out, &angle);
                append_text(out, Ghost(base), Ghost(self.operands()), "rotate");
            },
            Directive::Scale { x, y } => {
                first_operand(out, &x);
                next_operand(out, Ghost(base), Ghost(operand(x)), &y);
                append_text(out, Ghost(base), Ghost(self.operands()), "scale");
            },
            Directive::RectPath { x, y, width, height } => {
                first_negated(out, &width);
                let ghost a1 = negated(width);
                append_text(out, Ghost(base), Ghost(a1), "0 0 ");
                let ghost a2 = a1 + "0 0 "@;
                next_negated(out, Ghost(base), Ghost(a2), &height);
                let ghost a3 = a2 + negated(height);
                next_operand(out, Ghost(base), Ghost(a3), &width);
                let ghost a4 = a3 + operand(width);
                append_text(out, Ghost(base), Ghost(a4), "0 0 ");
                let ghost a5 = a4 + "0 0 "@;
                next_operand(out, Ghost(base), Ghost(a5), &height);
                let ghost a6 = a5 + operand(height);
                next_operand(out, Ghost(base), Ghost(a6), &x);
                let ghost a7 = a6 + operand(x);
                next_operand(out, Ghost(base), Ghost(a7), &y);
                append_text(out, Ghost(base), Ghost(self.operands()), "rect");
            },
            Directive::LinePath { x, y, length } => {
                first_operand(out, &length);
                let ghost a1 = operand(length);
                append_text(out, Ghost(base), Ghost(a1), "0 ");
                let ghost a2 = a1 + "0 "@;
                next_operand(out, Ghost(base), Ghost(a2), &x);
                let ghost a3 = a2 + operand(x);
                next_operand(out, Ghost(base), Ghost(a3), &y);
                append_text(out, Ghost(base), Ghost(self.operands()), "line");
            },
            Directive::LineWidth { width } => {
                first_operand(out, &width);
                append_text(out, Ghost(base), Ghost(self.operands()), "setlinewidth");
            },
            Directive::RgbColor { r, g, b } => {
                first_operand(out, &r);
                let ghost a1 = operand(r);
                next_operand(out, Ghost(base), Ghost(a1), &g);
                let ghost a2 = a1 + operand(g);
                next_operand(out, Ghost(base), Ghost(a2), &b);
                append_text(out, Ghost(base), Ghost(self.operands()), "setrgbcolor");
            },
            Directive::CmykColor { c, m, y, k } => {
                first_operand(out, &c);
                let ghost a1 = operand(c);
                next_operand(out, Ghost(base), Ghost(a1), &m);
                let ghost a2 = a1 + operand(m);
                next_operand(out, Ghost(base), Ghost(a2), &y);
                let ghost a3 = a2 + operand(y);
                next_operand(out, Ghost(base), Ghost(a3), &k);
                append_text(out, Ghost(base), Ghost(self.operands()), "setcmykcolor");
            },
            Directive::Fill => {
                push_text(out, "fill");
            },
            Directive::Stroke => {
                push_text(out, "stroke");
            },
        }
        proof {
            assert(Seq::<char>::empty() + self.operator() =~= self.operator());
            assert(out@ == base + self.line());
        }
        out.push('\n');
        proof {
            assert(out@ =~= old(out)@ + self.line() + newline());
        }
    }
}

/// Appends an operand to `out`.
fn first_operand(out: &mut String, s: &Scalar)
    ensures
        final(out)@ == old(out)@ + operand(*s),
{
    s.write_to(out);
    out.push(' ');
    proof {
        assert(out@ =~= old(out)@ + operand(*s));
    }
}

/// Appends a negated operand to `out`.
fn first_negated(out: &mut String, s: &Scalar)
    ensures
        final(out)@ == old(out)@ + negated(*s),
{
    out.push('-');
    s.write_to(out);
    out.push(' ');
    proof {
        assert(out@ =~= old(out)@ + negated(*s));
    }
}

/// Appends an operand behind the part `sofar` of a line that began at `base`.
fn next_operand(
    out: &mut String,
    Ghost(base): Ghost<Seq<char>>,
    Ghost(sofar): Ghost<Seq<char>>,
    s: &Scalar,
)
    requires
        old(out)@ == base + sofar,
    ensures
        final(out)@ == base + (sofar + operand(*s)),
{
    first_operand(out, s);
    proof {
        assert(out@ =~= base + (sofar + operand(*s)));
    }
}

/// Appends a negated operand behind the part `sofar` of a line that began
/// at `base`.
fn next_negated(
    out: &mut String,
    Ghost(base): Ghost<Seq<char>>,
    Ghost(sofar): Ghost<Seq<char>>,
    s: &Scalar,
)
    requires
        old(out)@ == base + sofar,
    ensures
        final(out)@ == base + (sofar + negated(*s)),
{
    first_negated(out, s);
    proof {
        assert(out@ =~= base + (sofar + negated(*s)));
    }
}

/// The markup of a sequence of directives: each line with its terminator,
/// in order.
pub open spec fn render(ops: Seq<Directive>) -> Seq<char>
    decreases ops.len(),
{
    if ops.len() == 0 {
        Seq::empty()
    } else {
        render(ops.drop_last()) + ops.last().line() + newline()
    }
}

/// Appends the markup of `ops` to `out`.
pub fn write_directives(ops: &Vec<Directive>, out: &mut String)
    ensures
        final(out)@ == old(out)@ + render(ops@),
{
    let mut i: usize = 0;
    while i < ops.len()
        invariant
            0 <= i <= ops.len(),
            out@ == old(out)@ + render(ops@.take(i as int)),
        decreases ops.len() - i,
    {
        ops[i].write_to(out);
        proof {
            let next = ops@.take(i + 1);
            assert(next.drop_last() =~= ops@.take(i as int));
            assert(next.last() == ops@[i as int]);
            assert(out@ =~= old(out)@ + render(next));
        }
        i += 1;
    }
    proof {
        assert(ops@.take(ops.len() as int) =~= ops@);
    }
}

} // verus!
