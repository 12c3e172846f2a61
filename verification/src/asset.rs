//! Metadata about the document.

use crate::document::Document;
use crate::extensions;
use crate::extras::Extras;
use crate::validation::{Name, Path, Step, Validate, Violation, ViolationView};
use vstd::prelude::*;
use vstd::string::StringExecFns;

verus! {

/// Metadata about the document.
#[derive(Clone, Debug, PartialEq, Eq)]
pub struct Asset {
    /// A copyright message suitable for display to credit the content creator.
    pub copyright: Option<String>,

    /// Extension specific data.
    pub extensions: Option<extensions::asset::Asset>,

    /// Optional application specific data.
    pub extras: Extras,

    /// Tool that generated this document.
    pub generator: Option<String>,

    /// The minimum format version that this asset targets.
    pub min_version: Option<String>,

    /// The format version of this asset.
    pub version: String,
}

impl Default for Asset {
    /// The default asset: no optional metadata, version `"2.0"`.
    fn default() -> (asset: Asset)
        ensures
            asset.copyright is None,
            asset.extensions is None,
            asset.generator is None,
            asset.min_version is None,
            asset.version@ == "2.0"@,
    {
        Asset {
            copyright: None,
            extensions: None,
            extras: crate::extras::Void {},
            generator: None,
            min_version: None,
            version: String::from_str("2.0"),
        }
    }
}

/// The asset metadata contributes no violations: its own fields are plain
/// text and its extension sub-structure declares no validatable fields.
pub proof fn lemma_asset_violations_empty(asset: Asset, document: &Document, prefix: Seq<Step>)
    ensures
        asset.spec_violations(document, prefix).len() == 0,
{
}

impl Validate for Asset {
    /// The asset's own fields are plain text; only its extension
    /// sub-structure is visited.
    open spec fn spec_violations(&self, document: &Document, prefix: Seq<Step>) -> Seq<
        ViolationView,
    > {
        self.extensions.spec_violations(document, prefix.push(Step::Field(Name::Extensions)))
    }

    fn validate(&self, document: &Document, path: Path, report: &mut Vec<Violation>) {
        self.extensions.validate(document, path.field(Name::Extensions), report);
    }
}

} // verus!
