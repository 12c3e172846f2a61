//! Extension data for meshes and their primitives.

use crate::document::Document;
use crate::validation::{
    array_violations, validate_array, violation_views, Name, Path, Step, Validate, Violation,
    ViolationView,
};
use vstd::prelude::*;

verus! {

/// A set of primitives to be rendered.
///
/// A node can contain one or more meshes and its transform places the meshes
/// in the scene.
#[derive(Clone, Debug, Default, PartialEq, Eq)]
pub struct Mesh {}

/// Geometry to be rendered with the given material.
#[derive(Clone, Debug, Default, PartialEq, Eq)]
pub struct Primitive {
    /// Per-primitive material-variant mappings.
    pub khr_materials_variants: Option<KhrMaterialsVariants>,
}

/// Material-variant mappings of a primitive.
#[derive(Clone, Debug, Default, PartialEq, Eq)]
pub struct KhrMaterialsVariants {
    /// The per-element mappings, each with its own path during validation.
    pub mappings: Vec<Mapping>,
}

/// Maps a material to a set of variants.
#[derive(Clone, Debug, Default, PartialEq, Eq)]
pub struct Mapping {
    /// The material this mapping selects.
    pub material: u32,

    /// The variants this mapping applies to.
    pub variants: Vec<u32>,
}

impl Validate for Mesh {
    /// This extension declares no validatable fields: it contributes no
    /// violations.
    open spec fn spec_violations(&self, _document: &Document, _prefix: Seq<Step>) -> Seq<
        ViolationView,
    > {
        Seq::empty()
    }

    fn validate(&self, _document: &Document, _path: Path, report: &mut Vec<Violation>) {
        proof {
            assert(violation_views(report@) =~= violation_views(report@)
                + Seq::<ViolationView>::empty());
        }
    }
}

impl Validate for Primitive {
    /// A primitive's violations are those of its material-variant mappings,
    /// when present.
    open spec fn spec_violations(&self, document: &Document, prefix: Seq<Step>) -> Seq<
        ViolationView,
    > {
        self.khr_materials_variants.spec_violations(
            document,
            prefix.push(Step::Field(Name::KhrMaterialsVariants)),
        )
    }

    fn validate(&self, document: &Document, path: Path, report: &mut Vec<Violation>) {
        self.khr_materials_variants.validate(
            document,
            path.field(Name::KhrMaterialsVariants),
            report,
        );
    }
}

impl Validate for KhrMaterialsVariants {
    /// The violations of each element of `mappings`, each under its own
    /// path, in position order.
    open spec fn spec_violations(&self, document: &Document, prefix: Seq<Step>) -> Seq<
        ViolationView,
    > {
        array_violations(self.mappings@, document, prefix.push(Step::Field(Name::Mappings)))
    }

    fn validate(&self, document: &Document, path: Path, report: &mut Vec<Violation>) {
        validate_array(&self.mappings, document, &path.field(Name::Mappings), report);
    }
}

impl Validate for Mapping {
    /// A mapping holds only plain numbers: it contributes no violations.
    open spec fn spec_violations(&self, _document: &Document, _prefix: Seq<Step>) -> Seq<
        ViolationView,
    > {
        Seq::empty()
    }

    fn validate(&self, _document: &Document, _path: Path, report: &mut Vec<Violation>) {
        proof {
            assert(violation_views(report@) =~= violation_views(report@)
                + Seq::<ViolationView>::empty());
        }
    }
}

} // verus!
