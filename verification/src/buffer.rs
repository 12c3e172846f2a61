//! Buffers and views into them.

use crate::document::{Document, Index};
use crate::extensions;
use crate::extras::Extras;
use crate::validation::{
    violation_views, Checked, Name, Path, Step, Validate, Violation, ViolationView,
};
use vstd::prelude::*;
use vstd::view::View as _;

verus! {

/// Corresponds to `GL_ARRAY_BUFFER`.
pub const ARRAY_BUFFER: u32 = 34_962;

/// Corresponds to `GL_ELEMENT_ARRAY_BUFFER`.
pub const ELEMENT_ARRAY_BUFFER: u32 = 34_963;

/// The minimum byte stride.
pub const MIN_BYTE_STRIDE: u32 = 4;

/// The maximum byte stride.
pub const MAX_BYTE_STRIDE: u32 = 252;

/// Specifies the target a GPU buffer should be bound to.
#[derive(Clone, Copy, Debug, PartialEq, Eq, Structural)]
pub enum Target {
    /// Corresponds to `GL_ARRAY_BUFFER`.
    ArrayBuffer,

    /// Corresponds to `GL_ELEMENT_ARRAY_BUFFER`.
    ElementArrayBuffer,
}

impl Target {
    /// The canonical raw wire value of this variant.
    pub open spec fn spec_gl_enum(self) -> u32 {
        match self {
            Target::ArrayBuffer => ARRAY_BUFFER,
            Target::ElementArrayBuffer => ELEMENT_ARRAY_BUFFER,
        }
    }

    /// The known-variant table of this enumeration: the variant for each raw
    /// wire value, or `Invalid` where no variant has that value.
    pub open spec fn spec_from_gl_enum(value: u32) -> Checked<Target> {
        if value == ARRAY_BUFFER {
            Checked::Valid(Target::ArrayBuffer)
        } else if value == ELEMENT_ARRAY_BUFFER {
            Checked::Valid(Target::ElementArrayBuffer)
        } else {
            Checked::Invalid
        }
    }

    /// Returns the corresponding OpenGL enum value.
    pub fn as_gl_enum(&self) -> (value: u32)
        ensures
            value == self.spec_gl_enum(),
    {
        match *self {
            Target::ArrayBuffer => ARRAY_BUFFER,
            Target::ElementArrayBuffer => ELEMENT_ARRAY_BUFFER,
        }
    }

    /// Classifies a raw wire value, never failing: an unknown value becomes
    /// `Invalid`.
    pub fn from_gl_enum(value: u32) -> (checked: Checked<Target>)
        ensures
            checked == Target::spec_from_gl_enum(value),
    {
        if value == ARRAY_BUFFER {
            Checked::Valid(Target::ArrayBuffer)
        } else if value == ELEMENT_ARRAY_BUFFER {
            Checked::Valid(Target::ElementArrayBuffer)
        } else {
            Checked::Invalid
        }
    }
}

/// Every recognized buffer target round-trips: classifying the raw wire
/// value of a variant yields that variant back.
pub proof fn lemma_target_round_trip(target: Target)
    ensures
        Target::spec_from_gl_enum(target.spec_gl_enum()) == Checked::Valid(target),
{
}

/// A raw value outside the known-variant table of `Target` always classifies
/// as `Invalid`.
pub proof fn lemma_target_unrecognized(value: u32)
    requires
        value != ARRAY_BUFFER,
        value != ELEMENT_ARRAY_BUFFER,
    ensures
        Target::spec_from_gl_enum(value) == Checked::<Target>::Invalid,
{
}

/// A buffer points to binary data representing geometry, animations, or skins.
#[derive(Clone, Debug, PartialEq, Eq)]
pub struct Buffer {
    /// The length of the buffer in bytes.
    pub byte_length: u32,

    /// The uri of the buffer. Relative paths are relative to the document.
    /// Instead of referencing a file, the uri can also be a data-uri.
    pub uri: Option<String>,

    /// Extension specific data.
    pub extensions: Option<extensions::buffer::Buffer>,

    /// Optional application specific data.
    pub extras: Extras,
}

/// A view into a buffer generally representing a subset of the buffer.
#[derive(Clone, Debug, PartialEq, Eq)]
pub struct View {
    /// The parent `Buffer`.
    pub buffer: Index<Buffer>,

    /// The length of the `View` in bytes.
    pub byte_length: u32,

    /// Offset into the parent buffer in bytes.
    pub byte_offset: Option<u32>,

    /// The stride in bytes between vertex attributes or other interleavable
    /// data.
    ///
    /// When zero, data is assumed to be tightly packed.
    pub byte_stride: Option<u32>,

    /// Optional target the buffer should be bound to.
    pub target: Option<Checked<Target>>,

    /// Extension specific data.
    pub extensions: Option<extensions::buffer::View>,

    /// Optional application specific data.
    pub extras: Extras,
}

impl View {
    /// A buffer view is consistent when its `buffer` reference resolves in
    /// the document and its `target`, when present, is a recognized value.
    pub open spec fn spec_consistent(&self, document: &Document) -> bool {
        &&& (self.buffer.value as int) < document.buffers@.len()
        &&& match self.target {
            Some(Checked::Invalid) => false,
            _ => true,
        }
    }
}

/// A buffer contributes no violations: its own fields are plain data.
pub proof fn lemma_buffer_violations_empty(buffer: Buffer, document: &Document, prefix: Seq<Step>)
    ensures
        buffer.spec_violations(document, prefix).len() == 0,
{
}

/// A buffer view contributes no violations exactly when it is consistent.
pub proof fn lemma_view_violations_empty(view: View, document: &Document, prefix: Seq<Step>)
    ensures
        (view.spec_violations(document, prefix).len() == 0) <==> view.spec_consistent(document),
{
}

impl Validate for Buffer {
    /// A buffer's own fields are plain data; only its extension
    /// sub-structure is visited.
    open spec fn spec_violations(&self, document: &Document, prefix: Seq<Step>) -> Seq<
        ViolationView,
    > {
        self.extensions.spec_violations(document, prefix.push(Step::Field(Name::Extensions)))
    }

    fn validate(&self, document: &Document, path: Path, report: &mut Vec<Violation>) {
        self.extensions.validate(document, path.field(Name::Extensions), report);
    }
}

impl Validate for View {
    /// A buffer view's violations, in field order: its `buffer` reference,
    /// its optional `target` enumeration, its extension sub-structure.
    open spec fn spec_violations(&self, document: &Document, prefix: Seq<Step>) -> Seq<
        ViolationView,
    > {
        self.buffer.spec_violations(document, prefix.push(Step::Field(Name::Buffer)))
            + self.target.spec_violations(document, prefix.push(Step::Field(Name::Target)))
            + self.extensions.spec_violations(document, prefix.push(Step::Field(Name::Extensions)))
    }

    fn validate(&self, document: &Document, path: Path, report: &mut Vec<Violation>) {
        self.buffer.validate(document, path.field(Name::Buffer), report);
        self.target.validate(document, path.field(Name::Target), report);
        self.extensions.validate(document, path.field(Name::Extensions), report);
        proof {
            assert(violation_views(report@) =~= violation_views(old(report)@)
                + self.spec_violations(document, path@));
        }
    }
}

} // verus!
