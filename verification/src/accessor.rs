//! Typed views into binary data.

use crate::document::Document;
use crate::validation::{violation_views, Path, Step, Validate, Violation, ViolationView};
use vstd::prelude::*;

verus! {

/// A typed view into a buffer, referenced by skins for their inverse-bind
/// matrices.
///
/// The accessor's own schema is a collaborator of the core: the engine only
/// needs the accessor's slot in the document's array, so that references to
/// it can be resolved and bounds-checked.
#[derive(Clone, Debug, PartialEq, Eq)]
pub struct Accessor {}

impl Validate for Accessor {
    /// An accessor declares no references and no classified enumerations
    /// here: it contributes no violations.
    open spec fn spec_violations(&self, _document: &Document, _prefix: Seq<Step>) -> Seq<
        ViolationView,
    > {
        Seq::empty()
    }

    fn validate(&self, _document: &Document, _path: Path, report: &mut Vec<Violation>) {
        proof {
            assert(violation_views(report@) =~= violation_views(report@)
                + Seq::<ViolationView>::empty());
        }
    }
}

} // verus!
