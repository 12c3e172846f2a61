//! Images used to create textures.

use crate::buffer;
use crate::document::{Document, Index};
use crate::extensions;
use crate::extras::Extras;
use crate::validation::{
    violation_views, Name, Path, Step, Validate, Violation, ViolationView,
};
use vstd::prelude::*;

verus! {

/// Image data used to create a texture.
#[derive(Clone, Debug, PartialEq, Eq)]
pub struct Image {
    /// The index of the buffer view that contains the image. Use this instead
    /// of the image's uri property.
    pub buffer_view: Option<Index<buffer::View>>,

    /// The image's MIME type.
    pub mime_type: Option<MimeType>,

    /// The uri of the image. Relative paths are relative to the document.
    /// Instead of referencing a file, the uri can also be a data-uri.
    /// The image format must be jpg or png.
    pub uri: Option<String>,

    /// Extension specific data.
    pub extensions: Option<extensions::image::Image>,

    /// Optional application specific data.
    pub extras: Extras,
}

/// An image MIME type.
#[derive(Clone, Debug, PartialEq, Eq)]
pub struct MimeType(pub String);

impl Image {
    /// An image is consistent when its `bufferView` reference, when present,
    /// resolves in the document.
    pub open spec fn spec_consistent(&self, document: &Document) -> bool {
        match self.buffer_view {
            Some(index) => (index.value as int) < document.buffer_views@.len(),
            None => true,
        }
    }
}

/// An image contributes no violations exactly when it is consistent.
pub proof fn lemma_image_violations_empty(image: Image, document: &Document, prefix: Seq<Step>)
    ensures
        (image.spec_violations(document, prefix).len() == 0) <==> image.spec_consistent(document),
{
}

impl Validate for MimeType {
    /// A MIME type is plain text: it contributes no violations.
    open spec fn spec_violations(&self, _document: &Document, _prefix: Seq<Step>) -> Seq<
        ViolationView,
    > {
        Seq::empty()
    }

    fn validate(&self, _document: &Document, _path: Path, report: &mut Vec<Violation>) {
        proof {
            assert(violation_views(report@) =~= violation_views(report@)
                + Seq::<ViolationView>::empty());
        }
    }
}

impl Validate for Image {
    /// An image's violations, in field order: its optional `bufferView`
    /// reference, its optional `mimeType`, its extension sub-structure.
    open spec fn spec_violations(&self, document: &Document, prefix: Seq<Step>) -> Seq<
        ViolationView,
    > {
        self.buffer_view.spec_violations(document, prefix.push(Step::Field(Name::BufferView)))
            + self.mime_type.spec_violations(document, prefix.push(Step::Field(Name::MimeType)))
            + self.extensions.spec_violations(document, prefix.push(Step::Field(Name::Extensions)))
    }

    fn validate(&self, document: &Document, path: Path, report: &mut Vec<Violation>) {
        self.buffer_view.validate(document, path.field(Name::BufferView), report);
        self.mime_type.validate(document, path.field(Name::MimeType), report);
        self.extensions.validate(document, path.field(Name::Extensions), report);
        proof {
            assert(violation_views(report@) =~= violation_views(old(report)@)
                + self.spec_violations(document, path@));
        }
    }
}

} // verus!
