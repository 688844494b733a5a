//! Emitter of vector-graphics documents in PostScript / EPS markup.
//!
//! Shapes are configured through chained calls, serialised to a sequence of
//! directives, rendered to text, collected on pages and framed by a document.
//! Every quantity is a fixed-point [`Scalar`] counted in thousandths.

pub mod scalar;
pub mod text;
pub mod directive;
pub mod nesting;
pub mod markup;
pub mod color;
pub mod transform;
pub mod serialize;
pub mod rect;
pub mod line;
pub mod fabricate;
pub mod page;
pub mod procedure;
pub mod image_registry;
pub mod inline_image;
pub mod document;
pub mod laws;

pub use color::ColorMode;
pub use directive::Directive;
pub use document::{Document, DocumentBuilder};
pub use fabricate::{DocumentType, Fabricate};
pub use image_registry::{ImageRegistry, RawImage};
pub use inline_image::{ImageFit, InlineImage};
pub use line::{Line, LineConfig};
pub use page::{Page, PageSize};
pub use procedure::{Procedure, ProcedureRegistry};
pub use rect::{Rect, RectConfig};
pub use scalar::Scalar;
pub use serialize::Serialize;
pub use transform::{TransformLineOrigin, TransformOrigin, TransformState};
