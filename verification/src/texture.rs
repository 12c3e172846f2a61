//! Textures, samplers and their enumerations.

use crate::document::{Document, Index};
use crate::extensions;
use crate::extras::Extras;
use crate::image;
use crate::validation::{
    violation_views, Checked, Name, Path, Step, Validate, Violation, ViolationView,
};
use vstd::prelude::*;

verus! {

/// Corresponds to `GL_NEAREST`.
pub const NEAREST: u32 = 9728;

/// Corresponds to `GL_LINEAR`.
pub const LINEAR: u32 = 9729;

/// Corresponds to `GL_NEAREST_MIPMAP_NEAREST`.
pub const NEAREST_MIPMAP_NEAREST: u32 = 9984;

/// Corresponds to `GL_LINEAR_MIPMAP_NEAREST`.
pub const LINEAR_MIPMAP_NEAREST: u32 = 9985;

/// Corresponds to `GL_NEAREST_MIPMAP_LINEAR`.
pub const NEAREST_MIPMAP_LINEAR: u32 = 9986;

/// Corresponds to `GL_LINEAR_MIPMAP_LINEAR`.
pub const LINEAR_MIPMAP_LINEAR: u32 = 9987;

/// Corresponds to `GL_CLAMP_TO_EDGE`.
pub const CLAMP_TO_EDGE: u32 = 33_071;

/// Corresponds to `GL_MIRRORED_REPEAT`.
pub const MIRRORED_REPEAT: u32 = 33_648;

/// Corresponds to `GL_REPEAT`.
pub const REPEAT: u32 = 10_497;

/// Magnification filter.
#[derive(Clone, Copy, Debug, PartialEq, Eq, Structural)]
pub enum MagFilter {
    /// Corresponds to `GL_NEAREST`.
    Nearest,

    /// Corresponds to `GL_LINEAR`.
    Linear,
}

impl MagFilter {
    /// The canonical raw wire value of this variant.
    pub open spec fn spec_gl_enum(self) -> u32 {
        match self {
            MagFilter::Nearest => NEAREST,
            MagFilter::Linear => LINEAR,
        }
    }

    /// The known-variant table of this enumeration: the variant for each raw
    /// wire value, or `Invalid` where no variant has that value.
    pub open spec fn spec_from_gl_enum(value: u32) -> Checked<MagFilter> {
        if value == NEAREST {
            Checked::Valid(MagFilter::Nearest)
        } else if value == LINEAR {
            Checked::Valid(MagFilter::Linear)
        } else {
            Checked::Invalid
        }
    }

    /// Returns the corresponding OpenGL enum value.
    pub fn as_gl_enum(&self) -> (value: u32)
        ensures
            value == self.spec_gl_enum(),
    {
        match *self {
            MagFilter::Nearest => NEAREST,
            MagFilter::Linear => LINEAR,
        }
    }

    /// Classifies a raw wire value, never failing: an unknown value becomes
    /// `Invalid`.
    pub fn from_gl_enum(value: u32) -> (checked: Checked<MagFilter>)
        ensures
            checked == MagFilter::spec_from_gl_enum(value),
    {
        if value == NEAREST {
            Checked::Valid(MagFilter::Nearest)
        } else if value == LINEAR {
            Checked::Valid(MagFilter::Linear)
        } else {
            Checked::Invalid
        }
    }
}

/// Every recognized magnification filter round-trips: classifying the raw
/// wire value of a variant yields that variant back.
pub proof fn lemma_mag_filter_round_trip(filter: MagFilter)
    ensures
        MagFilter::spec_from_gl_enum(filter.spec_gl_enum()) == Checked::Valid(filter),
{
}

/// A raw value outside the known-variant table of `MagFilter` always
/// classifies as `Invalid`.
pub proof fn lemma_mag_filter_unrecognized(value: u32)
    requires
        value != NEAREST,
        value != LINEAR,
    ensures
        MagFilter::spec_from_gl_enum(value) == Checked::<MagFilter>::Invalid,
{
}

/// Minification filter.
#[derive(Clone, Copy, Debug, PartialEq, Eq, Structural)]
pub enum MinFilter {
    /// Corresponds to `GL_NEAREST`.
    Nearest,

    /// Corresponds to `GL_LINEAR`.
    Linear,

    /// Corresponds to `GL_NEAREST_MIPMAP_NEAREST`.
    NearestMipmapNearest,

    /// Corresponds to `GL_LINEAR_MIPMAP_NEAREST`.
    LinearMipmapNearest,

    /// Corresponds to `GL_NEAREST_MIPMAP_LINEAR`.
    NearestMipmapLinear,

    /// Corresponds to `GL_LINEAR_MIPMAP_LINEAR`.
    LinearMipmapLinear,
}

impl MinFilter {
    /// The canonical raw wire value of this variant.
    pub open spec fn spec_gl_enum(self) -> u32 {
        match self {
            MinFilter::Nearest => NEAREST,
            MinFilter::Linear => LINEAR,
            MinFilter::NearestMipmapNearest => NEAREST_MIPMAP_NEAREST,
            MinFilter::LinearMipmapNearest => LINEAR_MIPMAP_NEAREST,
            MinFilter::NearestMipmapLinear => NEAREST_MIPMAP_LINEAR,
            MinFilter::LinearMipmapLinear => LINEAR_MIPMAP_LINEAR,
        }
    }

    /// The known-variant table of this enumeration: the variant for each raw
    /// wire value, or `Invalid` where no variant has that value.
    pub open spec fn spec_from_gl_enum(value: u32) -> Checked<MinFilter> {
        if value == NEAREST {
            Checked::Valid(MinFilter::Nearest)
        } else if value == LINEAR {
            Checked::Valid(MinFilter::Linear)
        } else if value == NEAREST_MIPMAP_NEAREST {
            Checked::Valid(MinFilter::NearestMipmapNearest)
        } else if value == LINEAR_MIPMAP_NEAREST {
            Checked::Valid(MinFilter::LinearMipmapNearest)
        } else if value == NEAREST_MIPMAP_LINEAR {
            Checked::Valid(MinFilter::NearestMipmapLinear)
        } else if value == LINEAR_MIPMAP_LINEAR {
            Checked::Valid(MinFilter::LinearMipmapLinear)
        } else {
            Checked::Invalid
        }
    }

    /// Returns the corresponding OpenGL enum value.
    pub fn as_gl_enum(&self) -> (value: u32)
        ensures
            value == self.spec_gl_enum(),
    {
        match *self {
            MinFilter::Nearest => NEAREST,
            MinFilter::Linear => LINEAR,
            MinFilter::NearestMipmapNearest => NEAREST_MIPMAP_NEAREST,
            MinFilter::LinearMipmapNearest => LINEAR_MIPMAP_NEAREST,
            MinFilter::NearestMipmapLinear => NEAREST_MIPMAP_LINEAR,
            MinFilter::LinearMipmapLinear => LINEAR_MIPMAP_LINEAR,
        }
    }

    /// Classifies a raw wire value, never failing: an unknown value becomes
    /// `Invalid`.
    pub fn from_gl_enum(value: u32) -> (checked: Checked<MinFilter>)
        ensures
            checked == MinFilter::spec_from_gl_enum(value),
    {
        if value == NEAREST {
            Checked::Valid(MinFilter::Nearest)
        } else if value == LINEAR {
            Checked::Valid(MinFilter::Linear)
        } else if value == NEAREST_MIPMAP_NEAREST {
            Checked::Valid(MinFilter::NearestMipmapNearest)
        } else if value == LINEAR_MIPMAP_NEAREST {
            Checked::Valid(MinFilter::LinearMipmapNearest)
        } else if value == NEAREST_MIPMAP_LINEAR {
            Checked::Valid(MinFilter::NearestMipmapLinear)
        } else if value == LINEAR_MIPMAP_LINEAR {
            Checked::Valid(MinFilter::LinearMipmapLinear)
        } else {
            Checked::Invalid
        }
    }
}

/// Every recognized minification filter round-trips: classifying the raw
/// wire value of a variant yields that variant back.
pub proof fn lemma_min_filter_round_trip(filter: MinFilter)
    ensures
        MinFilter::spec_from_gl_enum(filter.spec_gl_enum()) == Checked::Valid(filter),
{
}

/// A raw value outside the known-variant table of `MinFilter` always
/// classifies as `Invalid`.
pub proof fn lemma_min_filter_unrecognized(value: u32)
    requires
        value != NEAREST,
        value != LINEAR,
        value != NEAREST_MIPMAP_NEAREST,
        value != LINEAR_MIPMAP_NEAREST,
        value != NEAREST_MIPMAP_LINEAR,
        value != LINEAR_MIPMAP_LINEAR,
    ensures
        MinFilter::spec_from_gl_enum(value) == Checked::<MinFilter>::Invalid,
{
}

/// Texture co-ordinate wrapping mode.
#[derive(Clone, Copy, Debug, PartialEq, Eq, Structural)]
pub enum WrappingMode {
    /// Corresponds to `GL_CLAMP_TO_EDGE`.
    ClampToEdge,

    /// Corresponds to `GL_MIRRORED_REPEAT`.
    MirroredRepeat,

    /// Corresponds to `GL_REPEAT`.
    Repeat,
}

impl WrappingMode {
    /// The canonical raw wire value of this variant.
    pub open spec fn spec_gl_enum(self) -> u32 {
        match self {
            WrappingMode::ClampToEdge => CLAMP_TO_EDGE,
            WrappingMode::MirroredRepeat => MIRRORED_REPEAT,
            WrappingMode::Repeat => REPEAT,
        }
    }

    /// The known-variant table of this enumeration: the variant for each raw
    /// wire value, or `Invalid` where no variant has that value.
    pub open spec fn spec_from_gl_enum(value: u32) -> Checked<WrappingMode> {
        if value == CLAMP_TO_EDGE {
            Checked::Valid(WrappingMode::ClampToEdge)
        } else if value == MIRRORED_REPEAT {
            Checked::Valid(WrappingMode::MirroredRepeat)
        } else if value == REPEAT {
            Checked::Valid(WrappingMode::Repeat)
        } else {
            Checked::Invalid
        }
    }

    /// Returns the corresponding OpenGL enum value.
    pub fn as_gl_enum(&self) -> (value: u32)
        ensures
            value == self.spec_gl_enum(),
    {
        match *self {
            WrappingMode::ClampToEdge => CLAMP_TO_EDGE,
            WrappingMode::MirroredRepeat => MIRRORED_REPEAT,
            WrappingMode::Repeat => REPEAT,
        }
    }

    /// Classifies a raw wire value, never failing: an unknown value becomes
    /// `Invalid`.
    pub fn from_gl_enum(value: u32) -> (checked: Checked<WrappingMode>)
        ensures
            checked == WrappingMode::spec_from_gl_enum(value),
    {
        if value == CLAMP_TO_EDGE {
            Checked::Valid(WrappingMode::ClampToEdge)
        } else if value == MIRRORED_REPEAT {
            Checked::Valid(WrappingMode::MirroredRepeat)
        } else if value == REPEAT {
            Checked::Valid(WrappingMode::Repeat)
        } else {
            Checked::Invalid
        }
    }
}

impl Default for WrappingMode {
    /// A wrapping mode that is absent from the input defaults to `Repeat`.
    fn default() -> (mode: WrappingMode)
        ensures
            mode == WrappingMode::Repeat,
    {
        WrappingMode::Repeat
    }
}

/// Every recognized wrapping mode round-trips: classifying the raw wire
/// value of a variant yields that variant back.
pub proof fn lemma_wrapping_mode_round_trip(mode: WrappingMode)
    ensures
        WrappingMode::spec_from_gl_enum(mode.spec_gl_enum()) == Checked::Valid(mode),
{
}

/// A raw value outside the known-variant table of `WrappingMode` always
/// classifies as `Invalid`.
pub proof fn lemma_wrapping_mode_unrecognized(value: u32)
    requires
        value != CLAMP_TO_EDGE,
        value != MIRRORED_REPEAT,
        value != REPEAT,
    ensures
        WrappingMode::spec_from_gl_enum(value) == Checked::<WrappingMode>::Invalid,
{
}

/// Texture sampler properties for filtering and wrapping modes.
#[derive(Clone, Debug, PartialEq, Eq)]
pub struct Sampler {
    /// Magnification filter.
    pub mag_filter: Option<Checked<MagFilter>>,

    /// Minification filter.
    pub min_filter: Option<Checked<MinFilter>>,

    /// `s` wrapping mode.
    pub wrap_s: Checked<WrappingMode>,

    /// `t` wrapping mode.
    pub wrap_t: Checked<WrappingMode>,

    /// Extension specific data.
    pub extensions: Option<extensions::texture::Sampler>,

    /// Optional application specific data.
    pub extras: Extras,
}

impl Default for Sampler {
    /// The default sampler: no filters, both wrapping modes `Repeat`.
    fn default() -> (sampler: Sampler)
        ensures
            sampler.mag_filter is None,
            sampler.min_filter is None,
            sampler.wrap_s == Checked::Valid(WrappingMode::Repeat),
            sampler.wrap_t == Checked::Valid(WrappingMode::Repeat),
            sampler.extensions is None,
    {
        Sampler {
            mag_filter: None,
            min_filter: None,
            wrap_s: Checked::Valid(WrappingMode::Repeat),
            wrap_t: Checked::Valid(WrappingMode::Repeat),
            extensions: None,
            extras: crate::extras::Void {},
        }
    }
}

/// A texture and its sampler.
#[derive(Clone, Debug, PartialEq, Eq)]
pub struct Texture {
    /// The index of the sampler used by this texture.
    pub sampler: Option<Index<Sampler>>,

    /// The index of the image used by this texture.
    pub source: Index<image::Image>,

    /// Extension specific data.
    pub extensions: Option<extensions::texture::Texture>,

    /// Optional application specific data.
    pub extras: Extras,
}

/// Reference to a `Texture`.
#[derive(Clone, Debug, PartialEq, Eq)]
pub struct Info {
    /// The index of the texture.
    pub index: Index<Texture>,

    /// The set index of the texture's `TEXCOORD` attribute.
    pub tex_coord: u32,

    /// Extension specific data.
    pub extensions: Option<extensions::texture::Info>,

    /// Optional application specific data.
    pub extras: Extras,
}

impl Sampler {
    /// A sampler is consistent when each of its classified enumerations,
    /// where present, holds a recognized value.
    pub open spec fn spec_consistent(&self) -> bool {
        &&& match self.mag_filter {
            Some(Checked::Invalid) => false,
            _ => true,
        }
        &&& match self.min_filter {
            Some(Checked::Invalid) => false,
            _ => true,
        }
        &&& self.wrap_s is Valid
        &&& self.wrap_t is Valid
    }
}

/// A sampler contributes no violations exactly when it is consistent.
pub proof fn lemma_sampler_violations_empty(
    sampler: Sampler,
    document: &Document,
    prefix: Seq<Step>,
)
    ensures
        (sampler.spec_violations(document, prefix).len() == 0) <==> sampler.spec_consistent(),
{
}

impl Texture {
    /// A texture is consistent when its `sampler` reference, when present,
    /// and its `source` reference resolve in the document.
    pub open spec fn spec_consistent(&self, document: &Document) -> bool {
        &&& match self.sampler {
            Some(index) => (index.value as int) < document.samplers@.len(),
            None => true,
        }
        &&& (self.source.value as int) < document.images@.len()
    }
}

/// A texture contributes no violations exactly when it is consistent.
pub proof fn lemma_texture_violations_empty(
    texture: Texture,
    document: &Document,
    prefix: Seq<Step>,
)
    ensures
        (texture.spec_violations(document, prefix).len() == 0) <==> texture.spec_consistent(
            document,
        ),
{
}

impl Validate for Sampler {
    /// A sampler's violations, in field order: its optional `magFilter` and
    /// `minFilter` enumerations, its `wrapS` and `wrapT` modes, its
    /// extension sub-structure.
    open spec fn spec_violations(&self, document: &Document, prefix: Seq<Step>) -> Seq<
        ViolationView,
    > {
        self.mag_filter.spec_violations(document, prefix.push(Step::Field(Name::MagFilter)))
            + self.min_filter.spec_violations(document, prefix.push(Step::Field(Name::MinFilter)))
            + self.wrap_s.spec_violations(document, prefix.push(Step::Field(Name::WrapS)))
            + self.wrap_t.spec_violations(document, prefix.push(Step::Field(Name::WrapT)))
            + self.extensions.spec_violations(document, prefix.push(Step::Field(Name::Extensions)))
    }

    fn validate(&self, document: &Document, path: Path, report: &mut Vec<Violation>) {
        self.mag_filter.validate(document, path.field(Name::MagFilter), report);
        self.min_filter.validate(document, path.field(Name::MinFilter), report);
        self.wrap_s.validate(document, path.field(Name::WrapS), report);
        self.wrap_t.validate(document, path.field(Name::WrapT), report);
        self.extensions.validate(document, path.field(Name::Extensions), report);
        proof {
            assert(violation_views(report@) =~= violation_views(old(report)@)
                + self.spec_violations(document, path@));
        }
    }
}

impl Validate for Texture {
    /// A texture's violations, in field order: its optional `sampler`
    /// reference, its `source` reference, its extension sub-structure.
    open spec fn spec_violations(&self, document: &Document, prefix: Seq<Step>) -> Seq<
        ViolationView,
    > {
        self.sampler.spec_violations(document, prefix.push(Step::Field(Name::Sampler)))
            + self.source.spec_violations(document, prefix.push(Step::Field(Name::Source)))
            + self.extensions.spec_violations(document, prefix.push(Step::Field(Name::Extensions)))
    }

    fn validate(&self, document: &Document, path: Path, report: &mut Vec<Violation>) {
        self.sampler.validate(document, path.field(Name::Sampler), report);
        self.source.validate(document, path.field(Name::Source), report);
        self.extensions.validate(document, path.field(Name::Extensions), report);
        proof {
            assert(violation_views(report@) =~= violation_views(old(report)@)
                + self.spec_violations(document, path@));
        }
    }
}

impl Validate for Info {
    /// A texture reference's violations, in field order: its `index`
    /// reference, its extension sub-structure.
    open spec fn spec_violations(&self, document: &Document, prefix: Seq<Step>) -> Seq<
        ViolationView,
    > {
        self.index.spec_violations(document, prefix.push(Step::Field(Name::Index)))
            + self.extensions.spec_violations(document, prefix.push(Step::Field(Name::Extensions)))
    }

    fn validate(&self, document: &Document, path: Path, report: &mut Vec<Violation>) {
        self.index.validate(document, path.field(Name::Index), report);
        self.extensions.validate(document, path.field(Name::Extensions), report);
        proof {
            assert(violation_views(report@) =~= violation_views(old(report)@)
                + self.spec_violations(document, path@));
        }
    }
}

} // verus!
