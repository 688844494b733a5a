//! Documents: the header, the pages in the order they are added, and the
//! trailer.

use vstd::prelude::*;
use crate::fabricate::{DocumentType, Fabricate};
use crate::page::at_least_one;
use crate::procedure::{builtins, preamble, ProcedureRegistry, ProcedureView};
use crate::text::{append_int, append_text, int_text, push_text};

verus! {

/// Reads the clock through `chrono::Utc::now` and writes the moment with
/// `chrono::DateTime::to_rfc3339`. The text depends on when the call is
/// made, so nothing is claimed of it. The clock must not stand before the
/// first of January 1970, or `now` does not return.
#[verifier::external_body]
fn creation_timestamp() -> (stamp: String) {
    chrono::Utc::now().to_rfc3339()
}

/// The header of a document: the format banner, for an encapsulated
/// document its bounding box, the creator, the creation date `stamp`, the
/// page count (deferred to the end for a document of many pages, one for an
/// encapsulated document), and the end of the comments.
pub open spec fn header(doc_type: DocumentType, width: int, height: int, stamp: Seq<char>) -> Seq<
    char,
> {
    match doc_type {
        DocumentType::PS => "%!PS-Adobe-3.0\n%%Creator: pslib 0.1.0\n%%CreationDate: "@ + stamp
            + "\n%%Pages: (atend)\n%%EndComments\n"@,
        DocumentType::EPS => "%!PS-Adobe-3.0 EPSF-3.0\n%%BoundingBox: 0 0 "@ + int_text(width)
            + " "@ + int_text(height) + "\n%%Creator: pslib 0.1.0\n%%CreationDate: "@ + stamp
            + "\n%%Pages: 1\n%%EndComments\n"@,
    }
}

/// The directive in front of the page of number `number`: sheet index and
/// ordinal for a document of many pages, nothing for an encapsulated one.
pub open spec fn page_marker(doc_type: DocumentType, number: int) -> Seq<char> {
    match doc_type {
        DocumentType::PS => "%%Page: "@ + int_text(number) + " "@ + int_text(number) + "\n"@,
        DocumentType::EPS => Seq::empty(),
    }
}

/// The end-of-file marker that closes a document.
pub open spec fn trailer() -> Seq<char> {
    "%%EOF"@
}

/// What a document holds: its kind, all that was written so far, and the
/// number of pages taken in.
pub struct DocumentView {
    pub doc_type: DocumentType,
    pub output: Seq<char>,
    pub page_count: nat,
}

impl DocumentView {
    /// The document opened on a sink that holds `sink`: the header and the
    /// definitions of the procedures follow what is there.
    pub open spec fn opened(
        sink: Seq<char>,
        doc_type: DocumentType,
        width: int,
        height: int,
        stamp: Seq<char>,
        procedures: Seq<ProcedureView>,
    ) -> DocumentView {
        DocumentView {
            doc_type,
            output: sink + header(doc_type, width, height, stamp) + preamble(procedures),
            page_count: 0,
        }
    }

    /// The document after it took in an item with the markup `fabricated`:
    /// the page is counted, and its marker and markup follow what was
    /// written before.
    pub open spec fn added(self, fabricated: Seq<char>) -> DocumentView {
        DocumentView {
            doc_type: self.doc_type,
            output: self.output + page_marker(self.doc_type, self.page_count as int + 1) + fabricated,
            page_count: self.page_count + 1,
        }
    }

    /// All that the closed document holds: what was written, then the
    /// trailer.
    pub open spec fn closed(self) -> Seq<char> {
        self.output + trailer()
    }
}

/// The first two pages of a document of many pages are marked `1 1` and
/// `2 2`, in that order, whatever the pages hold.
pub proof fn lemma_first_two_pages(d: DocumentView, first: Seq<char>, second: Seq<char>)
    requires
        d.doc_type == DocumentType::PS,
        d.page_count == 0,
    ensures
        d.added(first).added(second).output == d.output + "%%Page: 1 1\n"@ + first
            + "%%Page: 2 2\n"@ + second,
        d.added(first).added(second).page_count == 2,
{
    reveal_strlit("%%Page: 1 1\n");
    reveal_strlit("%%Page: 2 2\n");
    reveal_strlit("%%Page: ");
    reveal_strlit(" ");
    reveal_strlit("\n");
    assert(int_text(1) =~= seq!['1']);
    assert(int_text(2) =~= seq!['2']);
    assert(page_marker(DocumentType::PS, 1) =~= "%%Page: 1 1\n"@);
    assert(page_marker(DocumentType::PS, 2) =~= "%%Page: 2 2\n"@);
}

/// Appends the header of a document to `out`.
fn write_header(out: &mut String, doc_type: DocumentType, width: i32, height: i32, stamp: &str)
    ensures
        final(out)@ == old(out)@ + header(doc_type, width as int, height as int, stamp@),
{
    let ghost base = out@;
    match doc_type {
        DocumentType::PS => {
            push_text(out, "%!PS-Adobe-3.0\n%%Creator: pslib 0.1.0\n%%CreationDate: ");
            let ghost a1 = "%!PS-Adobe-3.0\n%%Creator: pslib 0.1.0\n%%CreationDate: "@;
            append_text(out, Ghost(base), Ghost(a1), stamp);
            let ghost a2 = a1 + stamp@;
            append_text(out, Ghost(base), Ghost(a2), "\n%%Pages: (atend)\n%%EndComments\n");
        },
        DocumentType::EPS => {
            push_text(out, "%!PS-Adobe-3.0 EPSF-3.0\n%%BoundingBox: 0 0 ");
            let ghost a1 = "%!PS-Adobe-3.0 EPSF-3.0\n%%BoundingBox: 0 0 "@;
            append_int(out, Ghost(base), Ghost(a1), width as i64);
            let ghost a2 = a1 + int_text(width as int);
            append_text(out, Ghost(base), Ghost(a2), " ");
            let ghost a3 = a2 + " "@;
            append_int(out, Ghost(base), Ghost(a3), height as i64);
            let ghost a4 = a3 + int_text(height as int);
            append_text(out, Ghost(base), Ghost(a4), "\n%%Creator: pslib 0.1.0\n%%CreationDate: ");
            let ghost a5 = a4 + "\n%%Creator: pslib 0.1.0\n%%CreationDate: "@;
            append_text(out, Ghost(base), Ghost(a5), stamp);
            let ghost a6 = a5 + stamp@;
            append_text(out, Ghost(base), Ghost(a6), "\n%%Pages: 1\n%%EndComments\n");
        },
    }
}

/// Appends the marker of the page of number `number` to `out`.
fn write_page_marker(out: &mut String, doc_type: DocumentType, number: u32)
    ensures
        final(out)@ == old(out)@ + page_marker(doc_type, number as int),
{
    let ghost base = out@;
    match doc_type {
        DocumentType::PS => {
            push_text(out, "%%Page: ");
            let ghost a1 = "%%Page: "@;
            append_int(out, Ghost(base), Ghost(a1), number as i64);
            let ghost a2 = a1 + int_text(number as int);
            append_text(out, Ghost(base), Ghost(a2), " ");
            let ghost a3 = a2 + " "@;
            append_int(out, Ghost(base), Ghost(a3), number as i64);
            let ghost a4 = a3 + int_text(number as int);
            append_text(out, Ghost(base), Ghost(a4), "\n");
        },
        DocumentType::EPS => {
            proof {
                assert(out@ =~= base + page_marker(doc_type, number as int));
            }
        },
    }
}

/// A document that is being written. It owns all that was written so far;
/// closing it hands the finished text over and ends the document.
pub struct Document {
    doc_type: DocumentType,
    buffer: String,
    page_count: u32,
}

impl View for Document {
    type V = DocumentView;

    closed spec fn view(&self) -> DocumentView {
        DocumentView {
            doc_type: self.doc_type,
            output: self.buffer@,
            page_count: self.page_count as nat,
        }
    }
}

impl Document {
    /// A document of many pages with the built-in procedures, opened on
    /// `writer` and stamped with the time of the call.
    pub fn new(writer: String) -> (doc: Document)
        ensures
            exists|stamp: Seq<char>|
                doc@ == DocumentView::opened(
                    writer@,
                    DocumentType::PS,
                    0,
                    0,
                    stamp,
                    builtins(),
                ),
    {
        let stamp = creation_timestamp();
        Document::with_timestamp(writer, stamp.as_str())
    }

    /// A document of many pages with the built-in procedures, opened on
    /// `writer` and stamped with `stamp`.
    pub fn with_timestamp(writer: String, stamp: &str) -> (doc: Document)
        ensures
            doc@ == DocumentView::opened(writer@, DocumentType::PS, 0, 0, stamp@, builtins()),
    {
        let registry = ProcedureRegistry::with_builtins();
        Document::open(writer, DocumentType::PS, 0, 0, stamp, &registry)
    }

    /// Opens a document on `writer`: writes the header and the definitions
    /// of the procedures.
    fn open(
        writer: String,
        doc_type: DocumentType,
        width: i32,
        height: i32,
        stamp: &str,
        registry: &ProcedureRegistry,
    ) -> (doc: Document)
        ensures
            doc@ == DocumentView::opened(
                writer@,
                doc_type,
                width as int,
                height as int,
                stamp@,
                registry@,
            ),
    {
        let mut buffer = writer;
        write_header(&mut buffer, doc_type, width, height, stamp);
        registry.write_preamble(&mut buffer);
        Document { doc_type, buffer, page_count: 0 }
    }

    /// Takes `item` into the document. The page is counted; in a document
    /// of many pages its marker, with the new count as sheet index and as
    /// ordinal, comes first; then the item's markup.
    pub fn add<T: Fabricate>(&mut self, item: &T)
        requires
            old(self)@.page_count < u32::MAX,
        ensures
            final(self)@ == old(self)@.added(item.fabricated(&old(self)@.doc_type)),
    {
        let doc_type = self.doc_type;
        self.page_count = self.page_count + 1;
        write_page_marker(&mut self.buffer, doc_type, self.page_count);
        item.fabricate(&doc_type, &mut self.buffer);
    }

    /// Closes the document: the trailer follows what was written, and the
    /// finished text is handed over.
    pub fn close(self) -> (text: String)
        ensures
            text@ == self@.closed(),
    {
        let mut buffer = self.buffer;
        push_text(&mut buffer, "%%EOF");
        buffer
    }

    /// The kind of the document.
    pub fn doc_type(&self) -> (doc_type: DocumentType)
        ensures
            doc_type == self@.doc_type,
    {
        self.doc_type
    }

    /// The number of pages taken in so far.
    pub fn page_count(&self) -> (count: u32)
        ensures
            count == self@.page_count,
    {
        self.page_count
    }

    /// All that was written so far.
    pub fn output(&self) -> (text: &str)
        ensures
            text@ == self@.output,
    {
        self.buffer.as_str()
    }
}

/// What a builder holds: the kind of document, the sink if one was given,
/// the bounding box (zero by zero until one is given) and the procedures.
pub struct DocumentBuilderView {
    pub doc_type: DocumentType,
    pub writer: Option<Seq<char>>,
    pub width: int,
    pub height: int,
    pub registry: Seq<ProcedureView>,
}

impl DocumentBuilderView {
    /// A bounding box was given.
    pub open spec fn has_bounding_box(self) -> bool {
        self.width >= 1 && self.height >= 1
    }

    /// The builder holds what a document needs: a sink, and for an
    /// encapsulated document a bounding box.
    pub open spec fn complete(self) -> bool {
        &&& self.writer is Some
        &&& self.doc_type == DocumentType::EPS ==> self.has_bounding_box()
    }

    /// The document that the builder opens when stamped with `stamp`.
    pub open spec fn built(self, stamp: Seq<char>) -> DocumentView {
        DocumentView::opened(
            self.writer->0,
            self.doc_type,
            self.width,
            self.height,
            stamp,
            self.registry,
        )
    }
}

/// Collects what a document needs before it is opened.
pub struct DocumentBuilder {
    doc_type: DocumentType,
    buffer: Option<String>,
    width: i32,
    height: i32,
    registry: ProcedureRegistry,
}

impl View for DocumentBuilder {
    type V = DocumentBuilderView;

    closed spec fn view(&self) -> DocumentBuilderView {
        DocumentBuilderView {
            doc_type: self.doc_type,
            writer: match self.buffer {
                Some(s) => Some(s@),
                None => None,
            },
            width: self.width as int,
            height: self.height as int,
            registry: self.registry@,
        }
    }
}

impl DocumentBuilder {
    /// A builder for a document of many pages, with no sink, no bounding
    /// box and no procedures.
    pub fn builder() -> (b: DocumentBuilder)
        ensures
            b@ == (DocumentBuilderView {
                doc_type: DocumentType::PS,
                writer: None,
                width: 0,
                height: 0,
                registry: Seq::empty(),
            }),
    {
        DocumentBuilder {
            doc_type: DocumentType::PS,
            buffer: None,
            width: 0,
            height: 0,
            registry: ProcedureRegistry::new(),
        }
    }

    /// Gives the bounding box of an encapsulated document; a side less than
    /// one is raised to one.
    pub fn bounding_box(self, width: i32, height: i32) -> (b: DocumentBuilder)
        ensures
            b@ == (DocumentBuilderView {
                width: at_least_one(width as int),
                height: at_least_one(height as int),
                ..self@
            }),
    {
        let mut b = self;
        b.width = if width < 1 { 1 } else { width };
        b.height = if height < 1 { 1 } else { height };
        b
    }

    /// Chooses the kind of document.
    pub fn document_type(self, doc_type: DocumentType) -> (b: DocumentBuilder)
        ensures
            b@ == (DocumentBuilderView { doc_type, ..self@ }),
    {
        let mut b = self;
        b.doc_type = doc_type;
        b
    }

    /// Gives the sink that the document is written to, behind what the sink
    /// holds.
    pub fn writer(self, writer: String) -> (b: DocumentBuilder)
        ensures
            b@ == (DocumentBuilderView { writer: Some(writer@), ..self@ }),
    {
        let mut b = self;
        b.buffer = Some(writer);
        b
    }

    /// Gives the procedures that the header defines, in place of those
    /// given before.
    pub fn load_procedures(self, registry: ProcedureRegistry) -> (b: DocumentBuilder)
        ensures
            b@ == (DocumentBuilderView { registry: registry@, ..self@ }),
    {
        let mut b = self;
        b.registry = registry;
        b
    }

    /// Whether the builder holds what a document needs.
    pub fn is_complete(&self) -> (ok: bool)
        ensures
            ok == self@.complete(),
    {
        self.buffer.is_some() && (match self.doc_type {
            DocumentType::PS => true,
            DocumentType::EPS => self.width >= 1 && self.height >= 1,
        })
    }

    /// Opens the document, stamped with the time of the call.
    pub fn build(self) -> (doc: Document)
        requires
            self@.complete(),
        ensures
            exists|stamp: Seq<char>| doc@ == self@.built(stamp),
    {
        let stamp = creation_timestamp();
        self.build_with_timestamp(stamp.as_str())
    }

    /// Opens the document, stamped with `stamp`.
    pub fn build_with_timestamp(self, stamp: &str) -> (doc: Document)
        requires
            self@.complete(),
        ensures
            doc@ == self@.built(stamp@),
    {
        let DocumentBuilder { doc_type, buffer, width, height, registry } = self;
        match buffer {
            Some(writer) => Document::open(writer, doc_type, width, height, stamp, &registry),
            None => Document::open(String::new(), doc_type, width, height, stamp, &registry),
        }
    }
}

} // verus!
