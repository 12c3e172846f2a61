//! Application-specific data attached to document objects.

use crate::document::Document;
use crate::validation::{violation_views, Path, Step, Validate, Violation, ViolationView};
use vstd::prelude::*;

verus! {

/// Type representing no user-defined data.
///
/// The optional free-form payloads that a document may attach to any object
/// are opaque to the validation engine: it passes them through unexamined, so
/// they contribute no violations.
#[derive(Clone, Copy, Debug, PartialEq, Eq, Structural)]
pub struct Void {}

/// Data type of the `extras` attribute on all document objects.
pub type Extras = Void;

impl Validate for Void {
    /// Opaque payloads are passed through unexamined: they contribute no
    /// violations.
    open spec fn spec_violations(&self, _document: &Document, _prefix: Seq<Step>) -> Seq<
        ViolationView,
    > {
        Seq::empty()
    }

    fn validate(&self, _document: &Document, _path: Path, report: &mut Vec<Violation>) {
        proof {
            assert(violation_views(report@) =~= violation_views(report@)
                + Seq::<ViolationView>::empty());
        }
    }
}

} // verus!
