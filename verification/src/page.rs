//! Pages: a size and the markup of the shapes placed on them.

use vstd::prelude::*;
use crate::fabricate::{DocumentType, Fabricate};
use crate::serialize::Serialize;
use crate::text::{append_int, append_text, int_text, push_text};

verus! {

/// What a page holds: its size and the markup added so far.
pub struct PageView {
    pub width: int,
    pub height: int,
    pub content: Seq<char>,
}

/// The side `v` of a page, raised to one if it is less.
pub open spec fn at_least_one(v: int) -> int {
    if v < 1 {
        1
    } else {
        v
    }
}

/// The markup of a page in a document: the page's bounding box, the page
/// size for the device, the page's content, and the directive that shows
/// the page, in that order.
pub open spec fn page_frame(width: int, height: int, content: Seq<char>) -> Seq<char> {
    "%%PageBoundingBox: 0 0 "@ + int_text(width) + " "@ + int_text(height)
        + "\n<< /PageSize ["@ + int_text(width) + " "@ + int_text(height)
        + "] >> setpagedevice\n"@ + content + "showpage\n"@
}

/// The size of a page or of a bounding box: each side is at least one.
#[derive(Clone, Copy, Debug)]
pub struct PageSize {
    width: i32,
    height: i32,
}

impl PageSize {
    #[verifier::type_invariant]
    spec fn inv(self) -> bool {
        self.width >= 1 && self.height >= 1
    }

    /// The width.
    pub closed spec fn spec_width(self) -> int {
        self.width as int
    }

    /// The height.
    pub closed spec fn spec_height(self) -> int {
        self.height as int
    }

    /// The size with the given sides; a side less than one is raised to one.
    pub fn new(width: i32, height: i32) -> (size: PageSize)
        ensures
            size.spec_width() == at_least_one(width as int),
            size.spec_height() == at_least_one(height as int),
    {
        PageSize {
            width: if width < 1 { 1 } else { width },
            height: if height < 1 { 1 } else { height },
        }
    }

    /// The width, at least one.
    pub fn width(&self) -> (w: i32)
        ensures
            w == self.spec_width(),
            w >= 1,
    {
        proof {
            use_type_invariant(self);
        }
        self.width
    }

    /// The height, at least one.
    pub fn height(&self) -> (h: i32)
        ensures
            h == self.spec_height(),
            h >= 1,
    {
        proof {
            use_type_invariant(self);
        }
        self.height
    }
}

/// A page of a fixed size that collects the markup of the shapes added to
/// it, in the order they are added.
pub struct Page {
    size: PageSize,
    buffer: String,
}

impl View for Page {
    type V = PageView;

    closed spec fn view(&self) -> PageView {
        PageView {
            width: self.size.spec_width(),
            height: self.size.spec_height(),
            content: self.buffer@,
        }
    }
}

impl Page {
    /// An empty page of the given size; a side less than one is raised to
    /// one.
    pub fn new(width: i32, height: i32) -> (page: Page)
        ensures
            page@ == (PageView {
                width: at_least_one(width as int),
                height: at_least_one(height as int),
                content: Seq::empty(),
            }),
    {
        Page { size: PageSize::new(width, height), buffer: String::new() }
    }

    /// Appends the markup of `item` to the page. What was added before
    /// stays as it is, in front.
    pub fn add<T: Serialize>(&mut self, item: &T)
        ensures
            final(self)@ == (PageView {
                content: old(self)@.content + item.markup(),
                ..old(self)@
            }),
    {
        let markup = item.to_postscript_string();
        push_text(&mut self.buffer, markup.as_str());
    }

    /// The page's width, at least one.
    pub fn width(&self) -> (w: i32)
        ensures
            w == self@.width,
            w >= 1,
    {
        self.size.width()
    }

    /// The page's height, at least one.
    pub fn height(&self) -> (h: i32)
        ensures
            h == self@.height,
            h >= 1,
    {
        self.size.height()
    }

    /// The markup added to the page so far.
    pub fn content(&self) -> (s: &str)
        ensures
            s@ == self@.content,
    {
        self.buffer.as_str()
    }
}

impl Fabricate for Page {
    open spec fn fabricated(&self, doc_type: &DocumentType) -> Seq<char> {
        page_frame(self@.width, self@.height, self@.content)
    }

    fn fabricate(&self, doc_type: &DocumentType, writer: &mut String) {
        let ghost base = writer@;
        let w: i64 = self.size.width() as i64;
        let h: i64 = self.size.height() as i64;
        push_text(writer, "%%PageBoundingBox: 0 0 ");
        let ghost a1 = "%%PageBoundingBox: 0 0 "@;
        append_int(writer, Ghost(base), Ghost(a1), w);
        let ghost a2 = a1 + int_text(w as int);
        append_text(writer, Ghost(base), Ghost(a2), " ");
        let ghost a3 = a2 + " "@;
        append_int(writer, Ghost(base), Ghost(a3), h);
        let ghost a4 = a3 + int_text(h as int);
        append_text(writer, Ghost(base), Ghost(a4), "\n<< /PageSize [");
        let ghost a5 = a4 + "\n<< /PageSize ["@;
        append_int(writer, Ghost(base), Ghost(a5), w);
        let ghost a6 = a5 + int_text(w as int);
        append_text(writer, Ghost(base), Ghost(a6), " ");
        let ghost a7 = a6 + " "@;
        append_int(writer, Ghost(base), Ghost(a7), h);
        let ghost a8 = a7 + int_text(h as int);
        append_text(writer, Ghost(base), Ghost(a8), "] >> setpagedevice\n");
        let ghost a9 = a8 + "] >> setpagedevice\n"@;
        append_text(writer, Ghost(base), Ghost(a9), self.buffer.as_str());
        let ghost a10 = a9 + self.buffer@;
        append_text(writer, Ghost(base), Ghost(a10), "showpage\n");
    }
}

} // verus!
