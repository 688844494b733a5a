//! Named, reusable markup fragments and the registry that holds them.

use vstd::prelude::*;
use crate::text::append_text;

verus! {

/// `str`'s equality holds exactly when the two slices hold the same
/// characters in the same order.
pub assume_specification[ <str as PartialEq>::eq ](a: &str, b: &str) -> (same: bool)
    ensures
        same == (a@ == b@),
;

/// A named markup fragment.
#[derive(Debug)]
pub struct Procedure {
    pub name: String,
    pub body: String,
}

/// What a procedure holds: the characters of its name and of its body.
pub struct ProcedureView {
    pub name: Seq<char>,
    pub body: Seq<char>,
}

impl View for Procedure {
    type V = ProcedureView;

    open spec fn view(&self) -> ProcedureView {
        ProcedureView { name: self.name@, body: self.body@ }
    }
}

impl Procedure {
    /// The procedure of the given name and body.
    pub fn new(name: &str, body: &str) -> (procedure: Procedure)
        ensures
            procedure@ == (ProcedureView { name: name@, body: body@ }),
    {
        Procedure { name: name.to_owned(), body: body.to_owned() }
    }
}

/// No two entries have the same name.
pub open spec fn distinct_names(entries: Seq<ProcedureView>) -> bool {
    forall|i: int, j: int|
        0 <= i < j < entries.len() ==> (#[trigger] entries[i]).name != (#[trigger] entries[j]).name
}

/// An entry of that name exists.
pub open spec fn has_name(entries: Seq<ProcedureView>, name: Seq<char>) -> bool {
    exists|i: int| 0 <= i < entries.len() && (#[trigger] entries[i]).name == name
}

/// The place of the entry of that name, where one exists.
pub open spec fn position(entries: Seq<ProcedureView>, name: Seq<char>) -> int {
    choose|i: int| 0 <= i < entries.len() && (#[trigger] entries[i]).name == name
}

/// The entry of that name, if one exists.
pub open spec fn lookup(entries: Seq<ProcedureView>, name: Seq<char>) -> Option<ProcedureView> {
    if has_name(entries, name) {
        Some(entries[position(entries, name)])
    } else {
        None
    }
}

/// The entries after `procedure` was registered: it takes the place of the
/// entry of its name, or, where there is none, comes last.
pub open spec fn registered(entries: Seq<ProcedureView>, procedure: ProcedureView) -> Seq<
    ProcedureView,
> {
    if has_name(entries, procedure.name) {
        entries.update(position(entries, procedure.name), procedure)
    } else {
        entries.push(procedure)
    }
}

/// The procedures that the shapes' markup relies on, in the order they are
/// registered: the two paths and the four style appliers.
pub open spec fn builtins() -> Seq<ProcedureView> {
    seq![
        ProcedureView {
            name: "rect"@,
            body: "/rect { newpath moveto rlineto rlineto rlineto rlineto closepath } def"@,
        },
        ProcedureView { name: "line"@, body: "/line { newpath moveto rlineto closepath } def"@ },
        ProcedureView {
            name: "fill_rgb"@,
            body: "/fillrgb { gsave setrgbcolor fill grestore } def"@,
        },
        ProcedureView {
            name: "fill_cmyk"@,
            body: "/fillcmyk { gsave setcmykcolor fill grestore } def"@,
        },
        ProcedureView {
            name: "stroke_rgb"@,
            body: "/strokergb { gsave setlinewidth setrgbcolor stroke grestore } def"@,
        },
        ProcedureView {
            name: "stroke_cmyk"@,
            body: "/strokecmyk { gsave setlinewidth setcmykcolor stroke grestore } def"@,
        },
    ]
}

/// The definitions of the entries, one per line, in order.
pub open spec fn preamble(entries: Seq<ProcedureView>) -> Seq<char>
    decreases entries.len(),
{
    if entries.len() == 0 {
        Seq::empty()
    } else {
        preamble(entries.drop_last()) + entries.last().body + seq!['\n']
    }
}

/// Registering keeps names distinct, makes the new entry the one found under
/// its name, and leaves every other name's entry as it was.
pub proof fn lemma_registered(entries: Seq<ProcedureView>, procedure: ProcedureView)
    requires
        distinct_names(entries),
    ensures
        distinct_names(registered(entries, procedure)),
        lookup(registered(entries, procedure), procedure.name) == Some(procedure),
        forall|name: Seq<char>|
            name != procedure.name ==> lookup(registered(entries, procedure), name) == lookup(
                entries,
                name,
            ),
{
    let after = registered(entries, procedure);
    let slot = if has_name(entries, procedure.name) {
        position(entries, procedure.name)
    } else {
        entries.len() as int
    };
    assert(0 <= slot < after.len());
    assert(after[slot] == procedure);
    assert(forall|i: int| 0 <= i < after.len() && i != slot ==> after[i] == entries[i]);
    assert(forall|i: int| 0 <= i < entries.len() && i != slot ==> entries[i].name != procedure.name);
    assert(distinct_names(after));
    lemma_lookup_at(after, slot);
    assert forall|name: Seq<char>| name != procedure.name implies lookup(after, name) == lookup(
        entries,
        name,
    ) by {
        if has_name(entries, name) {
            let i = position(entries, name);
            assert(i != slot);
            assert(after[i] == entries[i]);
            lemma_lookup_at(after, i);
        } else {
            if has_name(after, name) {
                let i = position(after, name);
                assert(i != slot);
                assert(entries[i].name == name);
                assert(false);
            }
        }
    }
}

/// The built-in procedures have six different names.
pub proof fn lemma_builtins_distinct()
    ensures
        distinct_names(builtins()),
        builtins().len() == 6,
{
    reveal_strlit("rect");
    reveal_strlit("line");
    reveal_strlit("fill_rgb");
    reveal_strlit("fill_cmyk");
    reveal_strlit("stroke_rgb");
    reveal_strlit("stroke_cmyk");
    assert("rect"@[0] != "line"@[0]);
    assert("rect"@.len() == 4 && "line"@.len() == 4);
    assert("fill_rgb"@.len() == 8);
    assert("fill_cmyk"@.len() == 9);
    assert("stroke_rgb"@.len() == 10);
    assert("stroke_cmyk"@.len() == 11);
}

/// The built-in procedure at place `k` has a name that none before it has,
/// so registering it behind them appends it.
proof fn lemma_next_builtin(k: int)
    requires
        0 <= k < 6,
    ensures
        registered(builtins().take(k), builtins()[k]) == builtins().take(k + 1),
{
    lemma_builtins_distinct();
    let before = builtins().take(k);
    let name = builtins()[k].name;
    assert forall|i: int| 0 <= i < before.len() implies (#[trigger] before[i]).name != name by {
        assert(before[i] == builtins()[i]);
    }
    lemma_absent(before, name);
    assert(before.push(builtins()[k]) =~= builtins().take(k + 1));
}

/// Where no entry has the name, none is found under it.
pub proof fn lemma_absent(entries: Seq<ProcedureView>, name: Seq<char>)
    requires
        forall|i: int| 0 <= i < entries.len() ==> (#[trigger] entries[i]).name != name,
    ensures
        !has_name(entries, name),
        lookup(entries, name) is None,
{
}

/// Among distinct names, the entry at a place is the one found under its
/// name.
pub proof fn lemma_lookup_at(entries: Seq<ProcedureView>, i: int)
    requires
        distinct_names(entries),
        0 <= i < entries.len(),
    ensures
        has_name(entries, entries[i].name),
        position(entries, entries[i].name) == i,
        lookup(entries, entries[i].name) == Some(entries[i]),
{
    let name = entries[i].name;
    assert(has_name(entries, name));
    let found = position(entries, name);
    if found < i {
        assert(entries[found].name != entries[i].name);
    } else if i < found {
        assert(entries[i].name != entries[found].name);
    }
}

/// A registry of procedures, each found under its name.
pub struct ProcedureRegistry {
    procedures: Vec<Procedure>,
}

impl View for ProcedureRegistry {
    type V = Seq<ProcedureView>;

    closed spec fn view(&self) -> Seq<ProcedureView> {
        self.procedures@.map_values(|p: Procedure| p@)
    }
}

impl ProcedureRegistry {
    #[verifier::type_invariant]
    spec fn inv(self) -> bool {
        distinct_names(self@)
    }

    /// An empty registry.
    pub fn new() -> (registry: ProcedureRegistry)
        ensures
            registry@ == Seq::<ProcedureView>::empty(),
    {
        let registry = ProcedureRegistry { procedures: Vec::new() };
        proof {
            assert(registry@ =~= Seq::<ProcedureView>::empty());
        }
        registry
    }

    /// Registers `procedure`. An entry of the same name is overwritten in
    /// its place; a new name comes last.
    pub fn add_procedure(&mut self, procedure: Procedure)
        ensures
            final(self)@ == registered(old(self)@, procedure@),
            distinct_names(final(self)@),
    {
        proof {
            use_type_invariant(&*self);
            lemma_registered(self@, procedure@);
        }
        let ghost before = self@;
        let mut list: Vec<Procedure> = Vec::new();
        std::mem::swap(&mut self.procedures, &mut list);
        let mut i: usize = 0;
        let mut found: bool = false;
        while i < list.len() && !found
            invariant
                0 <= i <= list.len(),
                list@.map_values(|p: Procedure| p@) == before,
                found ==> i < list.len() && list@[i as int]@.name == procedure@.name,
                !found ==> forall|j: int| 0 <= j < i ==> (#[trigger] before[j]).name != procedure@.name,
            decreases list.len() - i + if found { 0int } else { 1int },
        {
            proof {
                assert(before[i as int] == list@[i as int]@);
            }
            if list[i].name.as_str().eq(procedure.name.as_str()) {
                found = true;
            } else {
                i += 1;
            }
        }
        proof {
            if found {
                assert(before[i as int].name == procedure@.name);
                lemma_lookup_at(before, i as int);
            } else {
                assert(!has_name(before, procedure@.name));
            }
        }
        if found {
            list[i] = procedure;
        } else {
            list.push(procedure);
        }
        proof {
            assert(list@.map_values(|p: Procedure| p@) =~= registered(before, procedure@));
        }
        std::mem::swap(&mut self.procedures, &mut list);
    }

    /// The procedure registered under exactly `name`, if there is one.
    pub fn get_procedure(&self, name: &str) -> (found: Option<&Procedure>)
        ensures
            match found {
                Some(procedure) => lookup(self@, name@) == Some(procedure@),
                None => lookup(self@, name@) is None,
            },
    {
        proof {
            use_type_invariant(self);
        }
        let mut i: usize = 0;
        while i < self.procedures.len()
            invariant
                0 <= i <= self.procedures.len(),
                distinct_names(self@),
                forall|j: int| 0 <= j < i ==> (#[trigger] self@[j]).name != name@,
            decreases self.procedures.len() - i,
        {
            proof {
                assert(self@[i as int] == self.procedures@[i as int]@);
            }
            if self.procedures[i].name.as_str().eq(name) {
                proof {
                    lemma_lookup_at(self@, i as int);
                }
                return Some(&self.procedures[i]);
            }
            i += 1;
        }
        proof {
            assert(!has_name(self@, name@));
        }
        None
    }

    /// A registry with the procedures that the shapes' markup relies on: the
    /// path of a rectangle from a corner and two deltas, the path of a line
    /// from a start and one delta, and the four appliers of a fill or a
    /// stroke in either colour space, each inside a state frame of its own.
    pub fn with_builtins() -> (registry: ProcedureRegistry)
        ensures
            registry@ == builtins(),
    {
        let mut registry = ProcedureRegistry::new();
        proof {
            lemma_builtins_distinct();
            assert(registry@ =~= builtins().take(0));
        }
        proof {
            lemma_next_builtin(0);
        }
        registry.add_procedure(
            Procedure::new(
                "rect",
                "/rect { newpath moveto rlineto rlineto rlineto rlineto closepath } def",
            ),
        );
        proof {
            assert(registry@ =~= builtins().take(1));
        }
        proof {
            lemma_next_builtin(1);
        }
        registry.add_procedure(
            Procedure::new(
                "line",
                "/line { newpath moveto rlineto closepath } def",
            ),
        );
        proof {
            assert(registry@ =~= builtins().take(2));
        }
        proof {
            lemma_next_builtin(2);
        }
        registry.add_procedure(
            Procedure::new(
                "fill_rgb",
                "/fillrgb { gsave setrgbcolor fill grestore } def",
            ),
        );
        proof {
            assert(registry@ =~= builtins().take(3));
        }
        proof {
            lemma_next_builtin(3);
        }
        registry.add_procedure(
            Procedure::new(
                "fill_cmyk",
                "/fillcmyk { gsave setcmykcolor fill grestore } def",
            ),
        );
        proof {
            assert(registry@ =~= builtins().take(4));
        }
        proof {
            lemma_next_builtin(4);
        }
        registry.add_procedure(
            Procedure::new(
                "stroke_rgb",
                "/strokergb { gsave setlinewidth setrgbcolor stroke grestore } def",
            ),
        );
        proof {
            assert(registry@ =~= builtins().take(5));
        }
        proof {
            lemma_next_builtin(5);
        }
        registry.add_procedure(
            Procedure::new(
                "stroke_cmyk",
                "/strokecmyk { gsave setlinewidth setcmykcolor stroke grestore } def",
            ),
        );
        proof {
            assert(registry@ =~= builtins().take(6));
        }
        proof {
            assert(builtins().take(6) =~= builtins());
        }
        registry
    }

    /// Appends the definition of every registered procedure to `out`, one
    /// per line, in the order of the registry.
    pub fn write_preamble(&self, out: &mut String)
        ensures
            final(out)@ == old(out)@ + preamble(self@),
    {
        let mut i: usize = 0;
        proof {
            assert(self@.take(0) =~= Seq::<ProcedureView>::empty());
            assert(out@ =~= old(out)@ + preamble(self@.take(0)));
        }
        while i < self.procedures.len()
            invariant
                0 <= i <= self.procedures.len(),
                self@.len() == self.procedures.len(),
                out@ == old(out)@ + preamble(self@.take(i as int)),
            decreases self.procedures.len() - i,
        {
            let ghost sofar = preamble(self@.take(i as int));
            let ghost base = old(out)@;
            append_text(out, Ghost(base), Ghost(sofar), self.procedures[i].body.as_str());
            out.push('\n');
            proof {
                let next = self@.take(i + 1);
                assert(next.drop_last() =~= self@.take(i as int));
                assert(next.last() == self.procedures@[i as int]@);
                assert(out@ =~= old(out)@ + preamble(next));
            }
            i += 1;
        }
        proof {
            assert(self@.take(self@.len() as int) =~= self@);
        }
    }

    /// The registered procedures, in the order of the registry.
    pub fn list_procedures(&self) -> (list: Vec<&Procedure>)
        ensures
            list@.len() == self@.len(),
            forall|i: int| 0 <= i < list@.len() ==> (#[trigger] list@[i])@ == self@[i],
    {
        let mut list: Vec<&Procedure> = Vec::new();
        let mut i: usize = 0;
        while i < self.procedures.len()
            invariant
                0 <= i <= self.procedures.len(),
                list@.len() == i,
                forall|j: int| 0 <= j < i ==> (#[trigger] list@[j])@ == self@[j],
            decreases self.procedures.len() - i,
        {
            proof {
                assert(self@[i as int] == self.procedures@[i as int]@);
            }
            list.push(&self.procedures[i]);
            i += 1;
        }
        list
    }
}

} // verus!
