//! The registry that gives each image file the procedure that draws it.

use vstd::prelude::*;
use crate::text::{nat_text, push_nat};

verus! {

/// An image file and the procedure that draws it.
#[derive(Debug)]
pub struct RawImage {
    file_name: String,
    file_path: String,
    procedure_name: String,
}

/// What a registered image holds.
pub struct RawImageView {
    pub file_name: Seq<char>,
    pub file_path: Seq<char>,
    pub procedure_name: Seq<char>,
}

impl View for RawImage {
    type V = RawImageView;

    closed spec fn view(&self) -> RawImageView {
        RawImageView {
            file_name: self.file_name@,
            file_path: self.file_path@,
            procedure_name: self.procedure_name@,
        }
    }
}

impl RawImage {
    /// The name of the image file.
    pub fn file_name(&self) -> (s: &str)
        ensures
            s@ == self@.file_name,
    {
        self.file_name.as_str()
    }

    /// The path of the image file.
    pub fn file_path(&self) -> (s: &str)
        ensures
            s@ == self@.file_path,
    {
        self.file_path.as_str()
    }

    /// The identifier of the procedure that draws the image.
    pub fn procedure_name(&self) -> (s: &str)
        ensures
            s@ == self@.procedure_name,
    {
        self.procedure_name.as_str()
    }
}

/// What the registry holds: the image registered under each file name, and
/// the number of registrations so far.
pub struct ImageRegistryView {
    pub images: Map<Seq<char>, RawImageView>,
    pub count: nat,
}

/// The identifier of the procedure for the registration of number `count`.
pub open spec fn procedure_id(count: nat) -> Seq<char> {
    "imager"@ + nat_text(count)
}

/// The images by file name after the registrations in `entries`, in order:
/// a later registration of a file name replaces an earlier one.
pub open spec fn by_file_name(entries: Seq<RawImageView>) -> Map<Seq<char>, RawImageView>
    decreases entries.len(),
{
    if entries.len() == 0 {
        Map::empty()
    } else {
        by_file_name(entries.drop_last()).insert(entries.last().file_name, entries.last())
    }
}

/// A registry of image files by file name.
pub struct ImageRegistry {
    images: Vec<RawImage>,
    count: u32,
}

impl View for ImageRegistry {
    type V = ImageRegistryView;

    closed spec fn view(&self) -> ImageRegistryView {
        ImageRegistryView {
            images: by_file_name(self.images@.map_values(|image: RawImage| image@)),
            count: self.count as nat,
        }
    }
}

impl ImageRegistry {
    /// An empty registry that has counted no registration.
    pub fn new() -> (registry: ImageRegistry)
        ensures
            registry@.images == Map::<Seq<char>, RawImageView>::empty(),
            registry@.count == 0,
    {
        let registry = ImageRegistry { images: Vec::new(), count: 0 };
        proof {
            assert(registry.images@.map_values(|image: RawImage| image@) =~= Seq::empty());
        }
        registry
    }

    /// The number of registrations so far.
    pub fn count(&self) -> (count: u32)
        ensures
            count == self@.count,
    {
        self.count
    }

    /// Registers the image file at `file_path` under `file_name`. The
    /// registration is counted, and the image's procedure is named by the
    /// new count. An earlier image of the same file name is replaced.
    pub fn add(self, file_name: String, file_path: String) -> (registry: ImageRegistry)
        requires
            self@.count < u32::MAX,
        ensures
            registry@.count == self@.count + 1,
            registry@.images == self@.images.insert(
                file_name@,
                RawImageView {
                    file_name: file_name@,
                    file_path: file_path@,
                    procedure_name: procedure_id(self@.count + 1),
                },
            ),
    {
        let ImageRegistry { images, count } = self;
        let mut images = images;
        let ghost before = images@.map_values(|image: RawImage| image@);
        let count: u32 = count + 1;
        let mut procedure_name = "imager".to_owned();
        push_nat(&mut procedure_name, count as u64);
        let image = RawImage { file_name, file_path, procedure_name };
        let ghost added = image@;
        images.push(image);
        proof {
            let after = images@.map_values(|image: RawImage| image@);
            assert(after.drop_last() =~= before);
            assert(after.last() == added);
        }
        ImageRegistry { images, count }
    }

    /// The identifier of the procedure that draws the image registered under
    /// `file_name`, if there is one.
    pub fn get_procedure_id(self, file_name: String) -> (id: Option<String>)
        ensures
            match id {
                Some(name) => self@.images.contains_key(file_name@)
                    && name@ == self@.images[file_name@].procedure_name,
                None => !self@.images.contains_key(file_name@),
            },
    {
        let ghost entries = self.images@.map_values(|image: RawImage| image@);
        let mut i: usize = self.images.len();
        proof {
            assert(entries.take(i as int) =~= entries);
        }
        while i > 0
            invariant
                0 <= i <= self.images.len(),
                entries == self.images@.map_values(|image: RawImage| image@),
                by_file_name(entries).contains_key(file_name@) <==> by_file_name(
                    entries.take(i as int),
                ).contains_key(file_name@),
                by_file_name(entries).contains_key(file_name@) ==> by_file_name(entries)[file_name@]
                    == by_file_name(entries.take(i as int))[file_name@],
            decreases i,
        {
            i -= 1;
            proof {
                let part = entries.take(i + 1);
                assert(part.drop_last() =~= entries.take(i as int));
                assert(part.last() == self.images@[i as int]@);
            }
            if self.images[i].file_name == file_name {
                return Some(self.images[i].procedure_name.clone());
            }
        }
        proof {
            assert(entries.take(0) =~= Seq::<RawImageView>::empty());
        }
        None
    }
}

} // verus!
