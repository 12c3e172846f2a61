//! Extension data for buffers and buffer views.

use crate::document::Document;
use crate::validation::{violation_views, Path, Step, Validate, Violation, ViolationView};
use vstd::prelude::*;
use vstd::view::View as _;

verus! {

/// A buffer points to binary data representing geometry, animations, or skins.
#[derive(Clone, Debug, Default, PartialEq, Eq)]
pub struct Buffer {}

/// A view into a buffer generally representing a subset of the buffer.
#[derive(Clone, Debug, Default, PartialEq, Eq)]
pub struct View {}


impl Validate for Buffer {
    /// This extension declares no validatable fields: it contributes no
    /// violations.
    open spec fn spec_violations(&self, _document: &Document, _prefix: Seq<Step>) -> Seq<
        ViolationView,
    > {
        Seq::empty()
    }

    fn validate(&self, _document: &Document, _path: Path, report: &mut Vec<Violation>) {
        proof {
            assert(violation_views(report@) =~= violation_views(report@)
                + Seq::<ViolationView>::empty());
        }
    }
}

impl Validate for View {
    /// This extension declares no validatable fields: it contributes no
    /// violations.
    open spec fn spec_violations(&self, _document: &Document, _prefix: Seq<Step>) -> Seq<
        ViolationView,
    > {
        Seq::empty()
    }

    fn validate(&self, _document: &Document, _path: Path, report: &mut Vec<Violation>) {
        proof {
            assert(violation_views(report@) =~= violation_views(report@)
                + Seq::<ViolationView>::empty());
        }
    }
}

} // verus!
