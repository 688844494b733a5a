//! The graphics-state stack discipline of a directive sequence: every save
//! has its restore, and no restore comes before its save.

use vstd::prelude::*;
use crate::directive::Directive;

verus! {

/// The depth of the graphics-state stack after `ops`, counted from the depth
/// before them.
pub open spec fn depth_after(ops: Seq<Directive>) -> int
    decreases ops.len(),
{
    if ops.len() == 0 {
        0
    } else {
        depth_after(ops.drop_last()) + ops.last().depth_change()
    }
}

/// The stack returns to the depth it started from and never falls below it
/// on the way.
pub open spec fn well_nested(ops: Seq<Directive>) -> bool {
    &&& depth_after(ops) == 0
    &&& forall|k: int| 0 <= k <= ops.len() ==> depth_after(#[trigger] ops.take(k)) >= 0
}

/// No directive of `ops` touches the stack.
pub open spec fn flat(ops: Seq<Directive>) -> bool {
    forall|i: int| 0 <= i < ops.len() ==> (#[trigger] ops[i]).depth_change() == 0
}

/// Every directive of `ops` keeps its operands within their ranges.
pub open spec fn all_in_range(ops: Seq<Directive>) -> bool {
    forall|i: int| 0 <= i < ops.len() ==> (#[trigger] ops[i]).in_range()
}

/// The depth after a single directive is that directive's change.
pub proof fn lemma_depth_single(op: Directive)
    ensures
        depth_after(seq![op]) == op.depth_change(),
{
    let one = seq![op];
    assert(one.drop_last() =~= Seq::<Directive>::empty());
    assert(depth_after(Seq::<Directive>::empty()) == 0);
    assert(one.last() == op);
}

/// The depth after two sequences in a row is the sum of their depths.
pub proof fn lemma_depth_concat(a: Seq<Directive>, b: Seq<Directive>)
    ensures
        depth_after(a + b) == depth_after(a) + depth_after(b),
    decreases b.len(),
{
    if b.len() == 0 {
        assert(a + b =~= a);
    } else {
        lemma_depth_concat(a, b.drop_last());
        assert((a + b).drop_last() =~= a + b.drop_last());
        assert((a + b).last() == b.last());
    }
}

/// A sequence that never touches the stack leaves its depth alone.
pub proof fn lemma_flat_depth(ops: Seq<Directive>)
    requires
        flat(ops),
    ensures
        depth_after(ops) == 0,
    decreases ops.len(),
{
    if ops.len() > 0 {
        assert(ops.last() == ops[ops.len() - 1]);
        lemma_flat_depth(ops.drop_last());
    }
}

/// A sequence that never touches the stack is well nested.
pub proof fn lemma_flat_well_nested(ops: Seq<Directive>)
    requires
        flat(ops),
    ensures
        well_nested(ops),
{
    lemma_flat_depth(ops);
    assert forall|k: int| 0 <= k <= ops.len() implies depth_after(#[trigger] ops.take(k))
        >= 0 by {
        lemma_flat_depth(ops.take(k));
    }
}

/// Two well-nested sequences in a row are well nested.
pub proof fn lemma_well_nested_concat(a: Seq<Directive>, b: Seq<Directive>)
    requires
        well_nested(a),
        well_nested(b),
    ensures
        well_nested(a + b),
{
    lemma_depth_concat(a, b);
    assert forall|k: int| 0 <= k <= (a + b).len() implies depth_after(
        #[trigger] (a + b).take(k),
    ) >= 0 by {
        if k <= a.len() {
            assert((a + b).take(k) =~= a.take(k));
        } else {
            let rest = b.take(k - a.len());
            assert((a + b).take(k) =~= a + rest);
            lemma_depth_concat(a, rest);
        }
    }
}

/// A well-nested sequence between a save and a restore is well nested.
pub proof fn lemma_well_nested_enclosed(inner: Seq<Directive>)
    requires
        well_nested(inner),
    ensures
        well_nested(seq![Directive::Save] + inner + seq![Directive::Restore]),
{
    let open = seq![Directive::Save];
    let close = seq![Directive::Restore];
    let whole = open + inner + close;
    lemma_depth_single(Directive::Save);
    lemma_depth_single(Directive::Restore);
    lemma_depth_concat(open, inner);
    lemma_depth_concat(open + inner, close);
    assert forall|k: int| 0 <= k <= whole.len() implies depth_after(#[trigger] whole.take(k))
        >= 0 by {
        if k == 0 {
            assert(whole.take(0) =~= Seq::<Directive>::empty());
        } else if k <= 1 + inner.len() {
            let part = inner.take(k - 1);
            assert(whole.take(k) =~= open + part);
            lemma_depth_concat(open, part);
        } else {
            assert(whole.take(k) =~= whole);
        }
    }
}

} // verus!
