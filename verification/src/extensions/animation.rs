//! Extension data for keyframe animations.

use crate::document::Document;
use crate::validation::{violation_views, Path, Step, Validate, Violation, ViolationView};
use vstd::prelude::*;

verus! {

/// A keyframe animation.
#[derive(Clone, Debug, Default, PartialEq, Eq)]
pub struct Animation {}

/// Targets an animation's sampler at a node's property.
#[derive(Clone, Debug, Default, PartialEq, Eq)]
pub struct Channel {}

/// The index of the node and TRS property that an animation channel targets.
#[derive(Clone, Debug, Default, PartialEq, Eq)]
pub struct Target {}

/// Defines a keyframe graph but not its target.
#[derive(Clone, Debug, Default, PartialEq, Eq)]
pub struct Sampler {}


impl Validate for Target {
    /// This extension declares no validatable fields: it contributes no
    /// violations.
    open spec fn spec_violations(&self, _document: &Document, _prefix: Seq<Step>) -> Seq<
        ViolationView,
    > {
        Seq::empty()
    }

    fn validate(&self, _document: &Document, _path: Path, report: &mut Vec<Violation>) {
        proof {
            assert(violation_views(report@) =~= violation_views(report@)
                + Seq::<ViolationView>::empty());
        }
    }
}

impl Validate for Sampler {
    /// This extension declares no validatable fields: it contributes no
    /// violations.
    open spec fn spec_violations(&self, _document: &Document, _prefix: Seq<Step>) -> Seq<
        ViolationView,
    > {
        Seq::empty()
    }

    fn validate(&self, _document: &Document, _path: Path, report: &mut Vec<Violation>) {
        proof {
            assert(violation_views(report@) =~= violation_views(report@)
                + Seq::<ViolationView>::empty());
        }
    }
}

} // verus!
