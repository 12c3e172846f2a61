//! Extension data for the asset metadata.

use crate::document::Document;
use crate::validation::{violation_views, Path, Step, Validate, Violation, ViolationView};
use vstd::prelude::*;

verus! {

/// Metadata about the document.
#[derive(Clone, Debug, Default, PartialEq, Eq)]
pub struct Asset {}


impl Validate for Asset {
    /// This extension declares no validatable fields: it contributes no
    /// violations.
    open spec fn spec_violations(&self, _document: &Document, _prefix: Seq<Step>) -> Seq<
        ViolationView,
    > {
        Seq::empty()
    }

    fn validate(&self, _document: &Document, _path: Path, report: &mut Vec<Violation>) {
        proof {
            assert(violation_views(report@) =~= violation_views(report@)
                + Seq::<ViolationView>::empty());
        }
    }
}

} // verus!
