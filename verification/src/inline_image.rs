//! Images placed on a page from a file.

use vstd::prelude::*;
use crate::scalar::{saturate, Scalar};

verus! {

/// How an image's own size maps into the box it is placed in.
#[derive(Clone, Copy, Debug, PartialEq, Eq, Structural)]
pub enum ImageFit {
    Contain,
    Stretch,
    StretchHorizontal,
    StretchVertical,
    Crop,
}

/// The ratio of `target` to `source` in thousandths, rounded down, for a
/// target that is not negative and a source above zero.
pub open spec fn ratio(target: int, source: int) -> int {
    (target * 1000) / source
}

/// The factor by which a source of the given size is scaled, the same along
/// both axes, to lie within a box of the given size and touch it along one
/// axis: the smaller of the two ratios of box to source.
pub open spec fn contain_factor(
    box_width: int,
    box_height: int,
    source_width: int,
    source_height: int,
) -> int {
    let across = ratio(box_width, source_width);
    let up = ratio(box_height, source_height);
    if across <= up {
        across
    } else {
        up
    }
}

/// What an image holds.
pub struct InlineImageView {
    pub x: Scalar,
    pub y: Scalar,
    pub width: Scalar,
    pub height: Scalar,
    pub rotate: Scalar,
    pub scale: (Scalar, Scalar),
    pub file_path: Seq<char>,
    pub fit: ImageFit,
}

impl InlineImageView {
    /// Position and size are not negative.
    pub open spec fn wf(self) -> bool {
        self.x@ >= 0 && self.y@ >= 0 && self.width@ >= 0 && self.height@ >= 0
    }

    /// The factor that contains a source of the given size in the image's
    /// box, limited to what a `Scalar` holds; none for a source without
    /// extent.
    pub open spec fn contained(self, source_width: Scalar, source_height: Scalar) -> Option<
        Scalar,
    > {
        if source_width@ > 0 && source_height@ > 0 {
            Some(
                Scalar {
                    thousandths: saturate(
                        contain_factor(self.width@, self.height@, source_width@, source_height@),
                    ) as i64,
                },
            )
        } else {
            None
        }
    }
}

/// An image from a file, placed in a box on the page.
#[derive(Debug)]
pub struct InlineImage {
    x: Scalar,
    y: Scalar,
    width: Scalar,
    height: Scalar,
    rotate: Scalar,
    scale: (Scalar, Scalar),
    file_path: String,
    fit: ImageFit,
}

impl View for InlineImage {
    type V = InlineImageView;

    closed spec fn view(&self) -> InlineImageView {
        InlineImageView {
            x: self.x,
            y: self.y,
            width: self.width,
            height: self.height,
            rotate: self.rotate,
            scale: self.scale,
            file_path: self.file_path@,
            fit: self.fit,
        }
    }
}

impl InlineImage {
    #[verifier::type_invariant]
    spec fn inv(self) -> bool {
        self@.wf()
    }

    /// The image of the file at `file_path` in the box at `(x, y)` of the
    /// given size, negative values raised to zero. It is not rotated, its
    /// scale factors are zero, and it is fitted by containment.
    pub fn new(file_path: &str, x: Scalar, y: Scalar, width: Scalar, height: Scalar) -> (image:
        InlineImage)
        ensures
            image@ == (InlineImageView {
                x: x.floored(),
                y: y.floored(),
                width: width.floored(),
                height: height.floored(),
                rotate: Scalar { thousandths: 0 },
                scale: (Scalar { thousandths: 0 }, Scalar { thousandths: 0 }),
                file_path: file_path@,
                fit: ImageFit::Contain,
            }),
            image@.wf(),
    {
        InlineImage {
            x: x.at_least_zero(),
            y: y.at_least_zero(),
            width: width.at_least_zero(),
            height: height.at_least_zero(),
            rotate: Scalar::from_thousandths(0),
            scale: (Scalar::from_thousandths(0), Scalar::from_thousandths(0)),
            file_path: file_path.to_owned(),
            fit: ImageFit::Contain,
        }
    }

    /// The image fitted into its box by `fit`.
    pub fn fit(self, fit: ImageFit) -> (image: InlineImage)
        ensures
            image@ == (InlineImageView { fit, ..self@ }),
            image@.wf(),
    {
        proof {
            use_type_invariant(&self);
        }
        let InlineImage { x, y, width, height, rotate, scale, file_path, fit: _ } = self;
        InlineImage { x, y, width, height, rotate, scale, file_path, fit }
    }

    /// The policy by which the image is fitted into its box.
    pub fn get_fit(&self) -> (fit: ImageFit)
        ensures
            fit == self@.fit,
    {
        self.fit
    }

    /// The scale factor that contains a source of the given size in the
    /// image's box, keeping the source's aspect: the smaller of the ratios
    /// of box width to source width and of box height to source height. A
    /// source without extent has no such factor.
    pub fn contain_scale(&self, source_width: Scalar, source_height: Scalar) -> (factor: Option<
        Scalar,
    >)
        ensures
            factor == self@.contained(source_width, source_height),
    {
        proof {
            use_type_invariant(self);
        }
        if source_width.thousandths <= 0 || source_height.thousandths <= 0 {
            return None;
        }
        let across: i128 = (self.width.thousandths as i128 * 1000) / (source_width.thousandths as i128);
        let up: i128 = (self.height.thousandths as i128 * 1000) / (source_height.thousandths as i128);
        let least: i128 = if across <= up {
            across
        } else {
            up
        };
        if least > i64::MAX as i128 {
            Some(Scalar::from_thousandths(i64::MAX))
        } else {
            proof {
                assert(across >= 0 && up >= 0) by (nonlinear_arith)
                    requires
                        across == (self.width.thousandths as int * 1000) / (
                        source_width.thousandths as int),
                        up == (self.height.thousandths as int * 1000) / (
                        source_height.thousandths as int),
                        self.width.thousandths >= 0,
                        self.height.thousandths >= 0,
                        source_width.thousandths > 0,
                        source_height.thousandths > 0,
                ;
            }
            Some(Scalar::from_thousandths(least as i64))
        }
    }

    /// The path of the image's file.
    pub fn file_path(&self) -> (s: &str)
        ensures
            s@ == self@.file_path,
    {
        self.file_path.as_str()
    }

    /// The corner of the image's box and the box's size: `(x, y, width,
    /// height)`, none of them negative.
    pub fn bounds(&self) -> (b: (Scalar, Scalar, Scalar, Scalar))
        ensures
            b == (self@.x, self@.y, self@.width, self@.height),
            self@.wf(),
    {
        proof {
            use_type_invariant(self);
        }
        (self.x, self.y, self.width, self.height)
    }
}

} // verus!
