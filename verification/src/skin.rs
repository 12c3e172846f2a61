//! Joints and matrices defining skins.

use crate::accessor;
use crate::document::{Document, Index};
use crate::extensions;
use crate::extras::Extras;
use crate::scene;
use crate::validation::{
    array_violations, lemma_array_violations_empty, validate_array, violation_views, Name, Path,
    Step, Validate, Violation, ViolationView,
};
use vstd::prelude::*;

verus! {

/// Joints and matrices defining a skin.
#[derive(Clone, Debug, PartialEq, Eq)]
pub struct Skin {
    /// Extension specific data.
    pub extensions: Option<extensions::skin::Skin>,

    /// Optional application specific data.
    pub extras: Extras,

    /// The index of the accessor containing the 4x4 inverse-bind matrices.
    ///
    /// When `None`, each matrix is assumed to be the 4x4 identity matrix
    /// which implies that the inverse-bind matrices were pre-applied.
    pub inverse_bind_matrices: Option<Index<accessor::Accessor>>,

    /// Indices of skeleton nodes used as joints in this skin.
    ///
    /// The array length must be the same as the `count` property of the
    /// `inverse_bind_matrices` `Accessor` (when defined).
    pub joints: Vec<Index<scene::Node>>,

    /// The index of the node used as a skeleton root.
    ///
    /// When `None`, joints transforms resolve to scene root.
    pub skeleton: Option<Index<scene::Node>>,
}

impl Skin {
    /// A skin is consistent when its `inverseBindMatrices` and `skeleton`
    /// references, where present, and every one of its `joints` references
    /// resolve in the document.
    pub open spec fn spec_consistent(&self, document: &Document) -> bool {
        &&& match self.inverse_bind_matrices {
            Some(index) => (index.value as int) < document.accessors@.len(),
            None => true,
        }
        &&& forall|i: int|
            0 <= i < self.joints@.len() ==> ((#[trigger] self.joints@[i]).value as int)
                < document.nodes@.len()
        &&& match self.skeleton {
            Some(index) => (index.value as int) < document.nodes@.len(),
            None => true,
        }
    }
}

/// A skin contributes no violations exactly when it is consistent.
pub proof fn lemma_skin_violations_empty(skin: Skin, document: &Document, prefix: Seq<Step>)
    ensures
        (skin.spec_violations(document, prefix).len() == 0) <==> skin.spec_consistent(document),
{
    let joints_prefix = prefix.push(Step::Field(Name::Joints));
    lemma_array_violations_empty(skin.joints@, document, joints_prefix);
    if skin.spec_violations(document, prefix).len() == 0 {
        assert(array_violations(skin.joints@, document, joints_prefix).len() == 0);
        assert forall|i: int| 0 <= i < skin.joints@.len() implies ((#[trigger] skin.joints@[i]).value
            as int) < document.nodes@.len() by {
            assert(skin.joints@[i].spec_violations(
                document,
                joints_prefix.push(Step::Entry(i as usize)),
            ).len() == 0);
        }
    }
    if skin.spec_consistent(document) {
        assert forall|i: int| 0 <= i < skin.joints@.len() implies (#[trigger] skin.joints@[i].spec_violations(
            document,
            joints_prefix.push(Step::Entry(i as usize)),
        )).len() == 0 by {
            assert(((skin.joints@[i]).value as int) < document.nodes@.len());
        }
        assert(array_violations(skin.joints@, document, joints_prefix).len() == 0);
    }
}

impl Validate for Skin {
    /// A skin's violations, in field order: its extension sub-structure,
    /// its optional `inverseBindMatrices` reference, each of its `joints`
    /// references under its own position, its optional `skeleton` reference.
    open spec fn spec_violations(&self, document: &Document, prefix: Seq<Step>) -> Seq<
        ViolationView,
    > {
        self.extensions.spec_violations(document, prefix.push(Step::Field(Name::Extensions)))
            + self.inverse_bind_matrices.spec_violations(
            document,
            prefix.push(Step::Field(Name::InverseBindMatrices)),
        ) + array_violations(self.joints@, document, prefix.push(Step::Field(Name::Joints)))
            + self.skeleton.spec_violations(document, prefix.push(Step::Field(Name::Skeleton)))
    }

    fn validate(&self, document: &Document, path: Path, report: &mut Vec<Violation>) {
        self.extensions.validate(document, path.field(Name::Extensions), report);
        self.inverse_bind_matrices.validate(
            document,
            path.field(Name::InverseBindMatrices),
            report,
        );
        validate_array(&self.joints, document, &path.field(Name::Joints), report);
        self.skeleton.validate(document, path.field(Name::Skeleton), report);
        proof {
            assert(violation_views(report@) =~= violation_views(old(report)@)
                + self.spec_violations(document, path@));
        }
    }
}

} // verus!
