//! What it means for a value to serialise to markup.

use vstd::prelude::*;

verus! {

/// A value that serialises to shape markup.
pub trait Serialize {
    /// The markup of the value.
    spec fn markup(&self) -> Seq<char>;

    /// Serialises the value: the result is its markup, the same on every
    /// call.
    fn to_postscript_string(&self) -> (s: String)
        ensures
            s@ == self.markup(),
    ;
}

} // verus!
