//! What it means for a value to be placed into a document.

use vstd::prelude::*;

verus! {

/// The kind of document that is written.
#[derive(Clone, Copy, Debug, PartialEq, Eq, Structural)]
pub enum DocumentType {
    /// A document of any number of pages.
    PS,
    /// An encapsulated document of one page with a bounding box of its own.
    EPS,
}

/// A value that a document can take in, such as a page.
pub trait Fabricate {
    /// The markup that the value adds to a document of the given kind.
    spec fn fabricated(&self, doc_type: &DocumentType) -> Seq<char>;

    /// Appends the value's markup to `writer`, behind what is there.
    fn fabricate(&self, doc_type: &DocumentType, writer: &mut String)
        ensures
            final(writer)@ == old(writer)@ + self.fabricated(doc_type),
    ;
}

} // verus!
