//! The graphics-state discipline read off the markup itself: the text is cut
//! into lines, and each line that saves or restores the state is counted.

use vstd::prelude::*;
use crate::directive::{negated, newline, operand, render, Directive};
use crate::nesting::{depth_after, well_nested};
use crate::scalar::{fraction_text, magnitude_text, scalar_text, Scalar};
use crate::text::nat_text;

verus! {

/// The text holds no line terminator.
pub open spec fn no_newline(s: Seq<char>) -> bool {
    forall|i: int| 0 <= i < s.len() ==> #[trigger] s[i] != '\n'
}

/// The text is not empty and ends with a space.
pub open spec fn ends_with_space(s: Seq<char>) -> bool {
    s.len() > 0 && s[s.len() - 1] == ' '
}

/// The number of characters in front of the first line terminator, or the
/// length of the text where there is none.
pub open spec fn first_line_len(text: Seq<char>) -> int
    decreases text.len(),
{
    if text.len() == 0 || text[0] == '\n' {
        0
    } else {
        1 + first_line_len(text.skip(1))
    }
}

/// The lines of a text, without their terminators. Text behind the last
/// terminator is a line of its own.
pub open spec fn lines(text: Seq<char>) -> Seq<Seq<char>>
    decreases text.len(),
{
    if text.len() == 0 {
        Seq::empty()
    } else {
        let n = first_line_len(text);
        if 0 <= n < text.len() {
            seq![text.take(n)] + lines(text.skip(n + 1))
        } else {
            seq![text]
        }
    }
}

/// How a line of markup changes the depth of the graphics-state stack: a
/// save raises it by one, a restore lowers it by one, any other line leaves
/// it.
pub open spec fn line_depth_change(line: Seq<char>) -> int {
    if line == "gsave"@ {
        1
    } else if line == "grestore"@ {
        -1
    } else {
        0
    }
}

/// The depth of the graphics-state stack after the lines `ls`, counted from
/// the depth before them.
pub open spec fn lines_depth_after(ls: Seq<Seq<char>>) -> int
    decreases ls.len(),
{
    if ls.len() == 0 {
        0
    } else {
        lines_depth_after(ls.drop_last()) + line_depth_change(ls.last())
    }
}

/// Read line by line, the markup returns the stack to the depth it started
/// from and never takes it below that depth.
pub open spec fn markup_well_nested(text: Seq<char>) -> bool {
    let ls = lines(text);
    &&& lines_depth_after(ls) == 0
    &&& forall|k: int| 0 <= k <= ls.len() ==> lines_depth_after(#[trigger] ls.take(k)) >= 0
}

/// The lines of a sequence of directives.
pub open spec fn directive_lines(ops: Seq<Directive>) -> Seq<Seq<char>> {
    Seq::new(ops.len(), |i: int| ops[i].line())
}

proof fn lemma_join(a: Seq<char>, b: Seq<char>)
    requires
        no_newline(a),
        no_newline(b),
    ensures
        no_newline(a + b),
        ends_with_space(b) ==> ends_with_space(a + b),
{
    assert forall|i: int| 0 <= i < (a + b).len() implies #[trigger] (a + b)[i] != '\n' by {
        if i < a.len() {
            assert((a + b)[i] == a[i]);
        } else {
            assert((a + b)[i] == b[i - a.len()]);
        }
    }
}

proof fn lemma_nat_text_plain(n: nat)
    ensures
        no_newline(nat_text(n)),
        nat_text(n).len() > 0,
    decreases n,
{
    if n >= 10 {
        lemma_nat_text_plain(n / 10);
        let head = nat_text(n / 10);
        let all = nat_text(n);
        assert forall|i: int| 0 <= i < all.len() implies #[trigger] all[i] != '\n' by {
            if i < head.len() {
                assert(all[i] == head[i]);
            }
        }
    }
}

proof fn lemma_scalar_text_plain(t: int)
    ensures
        no_newline(scalar_text(t)),
        scalar_text(t).len() > 0,
{
    let m: nat = if t < 0 {
        (-t) as nat
    } else {
        t as nat
    };
    lemma_nat_text_plain(m / 1000);
    let whole = nat_text(m / 1000);
    let point = seq!['.'];
    assert(no_newline(point));
    if m % 1000 != 0 {
        let fraction = fraction_text(m % 1000);
        assert(no_newline(fraction));
        lemma_join(whole, point);
        lemma_join(whole + point, fraction);
    }
    assert(no_newline(magnitude_text(m)));
    if t < 0 {
        let sign = seq!['-'];
        assert(no_newline(sign));
        lemma_join(sign, magnitude_text(m));
    }
}

proof fn lemma_operand_plain(s: Scalar)
    ensures
        no_newline(operand(s)),
        ends_with_space(operand(s)),
        no_newline(negated(s)),
        ends_with_space(negated(s)),
{
    lemma_scalar_text_plain(s@);
    let space = seq![' '];
    let sign = seq!['-'];
    assert(no_newline(space));
    assert(no_newline(sign));
    assert(ends_with_space(space));
    lemma_join(s.text(), space);
    lemma_join(sign, s.text());
    lemma_join(sign + s.text(), space);
}

/// The operands of a directive hold no line terminator, and where there are
/// any they end with a space.
proof fn lemma_operands_shape(op: Directive)
    ensures
        no_newline(op.operands()),
        op.operands().len() > 0 ==> ends_with_space(op.operands()),
        op.operands().len() == 0 ==> (op is Save || op is Restore || op is Fill || op is Stroke),
{
    reveal_strlit("0 0 ");
    reveal_strlit("0 ");
    assert(no_newline("0 0 "@));
    assert(ends_with_space("0 0 "@));
    assert(no_newline("0 "@));
    assert(ends_with_space("0 "@));
    match op {
        Directive::Save | Directive::Restore | Directive::Fill | Directive::Stroke => {},
        Directive::Translate { x, y } => {
            lemma_operand_plain(x);
            lemma_operand_plain(y);
            lemma_join(operand(x), operand(y));
        },
        Directive::TranslateBack { x, y } => {
            lemma_operand_plain(x);
            lemma_operand_plain(y);
            lemma_join(negated(x), negated(y));
        },
        Directive::Rotate { angle } => {
            lemma_operand_plain(angle);
        },
        Directive::Scale { x, y } => {
            lemma_operand_plain(x);
            lemma_operand_plain(y);
            lemma_join(operand(x), operand(y));
        },
        Directive::RectPath { x, y, width, height } => {
            lemma_operand_plain(x);
            lemma_operand_plain(y);
            lemma_operand_plain(width);
            lemma_operand_plain(height);
            let a1 = negated(width);
            let a2 = a1 + "0 0 "@;
            let a3 = a2 + negated(height);
            let a4 = a3 + operand(width);
            let a5 = a4 + "0 0 "@;
            let a6 = a5 + operand(height);
            let a7 = a6 + operand(x);
            lemma_join(a1, "0 0 "@);
            lemma_join(a2, negated(height));
            lemma_join(a3, operand(width));
            lemma_join(a4, "0 0 "@);
            lemma_join(a5, operand(height));
            lemma_join(a6, operand(x));
            lemma_join(a7, operand(y));
        },
        Directive::LinePath { x, y, length } => {
            lemma_operand_plain(x);
            lemma_operand_plain(y);
            lemma_operand_plain(length);
            let a1 = operand(length);
            let a2 = a1 + "0 "@;
            let a3 = a2 + operand(x);
            lemma_join(a1, "0 "@);
            lemma_join(a2, operand(x));
            lemma_join(a3, operand(y));
        },
        Directive::LineWidth { width } => {
            lemma_operand_plain(width);
        },
        Directive::RgbColor { r, g, b } => {
            lemma_operand_plain(r);
            lemma_operand_plain(g);
            lemma_operand_plain(b);
            lemma_join(operand(r), operand(g));
            lemma_join(operand(r) + operand(g), operand(b));
        },
        Directive::CmykColor { c, m, y, k } => {
            lemma_operand_plain(c);
            lemma_operand_plain(m);
            lemma_operand_plain(y);
            lemma_operand_plain(k);
            lemma_join(operand(c), operand(m));
            lemma_join(operand(c) + operand(m), operand(y));
            lemma_join(operand(c) + operand(m) + operand(y), operand(k));
        },
    }
}

/// The operator of a directive holds neither a line terminator nor a space.
proof fn lemma_operator_shape(op: Directive)
    ensures
        no_newline(op.operator()),
        forall|i: int| 0 <= i < op.operator().len() ==> #[trigger] op.operator()[i] != ' ',
        op.operator().len() > 0,
{
    reveal_strlit("gsave");
    reveal_strlit("grestore");
    reveal_strlit("translate");
    reveal_strlit("rotate");
    reveal_strlit("scale");
    reveal_strlit("rect");
    reveal_strlit("line");
    reveal_strlit("setlinewidth");
    reveal_strlit("setrgbcolor");
    reveal_strlit("setcmykcolor");
    reveal_strlit("fill");
    reveal_strlit("stroke");
}

/// The line of a directive holds no line terminator.
pub proof fn lemma_line_plain(op: Directive)
    ensures
        no_newline(op.line()),
{
    lemma_operands_shape(op);
    lemma_operator_shape(op);
    lemma_join(op.operands(), op.operator());
}

/// A text that has a space in it is none of the words without one.
proof fn lemma_not_bare_word(operands: Seq<char>, operator: Seq<char>, word: Seq<char>)
    requires
        ends_with_space(operands),
        forall|i: int| 0 <= i < word.len() ==> #[trigger] word[i] != ' ',
    ensures
        operands + operator != word,
{
    let at = operands.len() - 1;
    assert((operands + operator)[at] == operands[at]);
}

/// The four operators that stand alone on their line differ from one
/// another.
proof fn lemma_bare_words()
    ensures
        "gsave"@ != "grestore"@,
        "fill"@ != "gsave"@,
        "fill"@ != "grestore"@,
        "stroke"@ != "gsave"@,
        "stroke"@ != "grestore"@,
{
    reveal_strlit("gsave");
    reveal_strlit("grestore");
    reveal_strlit("fill");
    reveal_strlit("stroke");
    assert("gsave"@.len() == 5);
    assert("grestore"@.len() == 8);
    assert("fill"@.len() == 4);
    assert("stroke"@.len() == 6);
}

/// A line of markup saves the state exactly when its directive is a save,
/// and restores it exactly when its directive is a restore.
pub proof fn lemma_line_depth_change(op: Directive)
    ensures
        line_depth_change(op.line()) == op.depth_change(),
{
    lemma_operands_shape(op);
    lemma_operator_shape(Directive::Save);
    lemma_operator_shape(Directive::Restore);
    lemma_bare_words();
    let operands = op.operands();
    if operands.len() > 0 {
        lemma_not_bare_word(operands, op.operator(), "gsave"@);
        lemma_not_bare_word(operands, op.operator(), "grestore"@);
    } else {
        assert(op.line() =~= op.operator());
    }
}

proof fn lemma_first_line_len(line: Seq<char>, rest: Seq<char>)
    requires
        no_newline(line),
    ensures
        first_line_len(line + newline() + rest) == line.len(),
    decreases line.len(),
{
    let text = line + newline() + rest;
    if line.len() == 0 {
        assert(text[0] == '\n');
    } else {
        assert(text[0] == line[0]);
        let tail = line.skip(1);
        assert(text.skip(1) =~= tail + newline() + rest);
        assert forall|i: int| 0 <= i < tail.len() implies #[trigger] tail[i] != '\n' by {
            assert(tail[i] == line[i + 1]);
        }
        lemma_first_line_len(tail, rest);
    }
}

/// A line without a terminator in it, its terminator and more text: the
/// lines are that line and the lines of the rest.
pub proof fn lemma_lines_cons(line: Seq<char>, rest: Seq<char>)
    requires
        no_newline(line),
    ensures
        lines(line + newline() + rest) == seq![line] + lines(rest),
{
    let text = line + newline() + rest;
    lemma_first_line_len(line, rest);
    let n = line.len() as int;
    assert(text.take(n) =~= line);
    assert(text.skip(n + 1) =~= rest);
}

/// The markup of two sequences in a row is the markup of the first, then
/// that of the second.
pub proof fn lemma_render_concat(a: Seq<Directive>, b: Seq<Directive>)
    ensures
        render(a + b) == render(a) + render(b),
    decreases b.len(),
{
    if b.len() == 0 {
        assert(a + b =~= a);
        assert(render(a) + render(b) =~= render(a));
    } else {
        lemma_render_concat(a, b.drop_last());
        assert((a + b).drop_last() =~= a + b.drop_last());
        assert((a + b).last() == b.last());
        assert(render(a + b) =~= render(a) + render(b));
    }
}

/// The markup of a sequence that is not empty is the line of its first
/// directive, the terminator, and the markup of the rest.
proof fn lemma_render_front(ops: Seq<Directive>)
    requires
        ops.len() > 0,
    ensures
        render(ops) == ops[0].line() + newline() + render(ops.skip(1)),
{
    let one = seq![ops[0]];
    assert(ops =~= one + ops.skip(1));
    lemma_render_concat(one, ops.skip(1));
    assert(one.drop_last() =~= Seq::<Directive>::empty());
    assert(render(one.drop_last()) =~= Seq::<char>::empty());
    assert(render(one) =~= ops[0].line() + newline());
}

/// Cut into lines, the markup of a sequence of directives gives back the
/// line of each directive, in order.
pub proof fn lemma_lines_of_render(ops: Seq<Directive>)
    ensures
        lines(render(ops)) == directive_lines(ops),
    decreases ops.len(),
{
    if ops.len() == 0 {
        assert(directive_lines(ops) =~= Seq::<Seq<char>>::empty());
    } else {
        let rest = ops.skip(1);
        lemma_render_front(ops);
        lemma_line_plain(ops[0]);
        lemma_lines_cons(ops[0].line(), render(rest));
        lemma_lines_of_render(rest);
        assert(directive_lines(ops) =~= seq![ops[0].line()] + directive_lines(rest));
    }
}

/// Counted on the lines of the markup, the depth is the one counted on the
/// directives.
pub proof fn lemma_lines_depth(ops: Seq<Directive>)
    ensures
        lines_depth_after(directive_lines(ops)) == depth_after(ops),
    decreases ops.len(),
{
    if ops.len() > 0 {
        let ls = directive_lines(ops);
        assert(ls.drop_last() =~= directive_lines(ops.drop_last()));
        assert(ls.last() == ops.last().line());
        lemma_line_depth_change(ops.last());
        lemma_lines_depth(ops.drop_last());
    }
}

/// The markup of a well-nested sequence of directives is well nested when
/// read line by line: every line that saves the state has exactly one line
/// behind it that restores it, and the depth returns to where it started.
pub proof fn lemma_render_well_nested(ops: Seq<Directive>)
    requires
        well_nested(ops),
    ensures
        markup_well_nested(render(ops)),
{
    lemma_lines_of_render(ops);
    lemma_lines_depth(ops);
    let ls = directive_lines(ops);
    assert forall|k: int| 0 <= k <= ls.len() implies lines_depth_after(#[trigger] ls.take(k))
        >= 0 by {
        assert(ls.take(k) =~= directive_lines(ops.take(k)));
        lemma_lines_depth(ops.take(k));
    }
}

} // verus!
