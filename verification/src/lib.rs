//! Document model and validation for a hierarchical, index-referenced
//! 3D-scene description format.
//!
//! A parsed document is a flat set of typed top-level arrays; entities refer
//! to entities of other kinds by position ([`Index`]), never by ownership.
//! Enumeration fields read from untrusted input are pre-classified
//! ([`Checked`]): a well-typed raw value that matches no known variant is
//! tracked as `Invalid` instead of failing the parse. After parsing, the
//! validation engine ([`validation::validate`]) walks every entity of the
//! document, resolves every reference and inspects every classified
//! enumeration, and returns the complete ordered list of violations, each
//! with the exact path of the offending value.

pub mod accessor;
pub mod asset;
pub mod buffer;
pub mod document;
pub mod extensions;
pub mod extras;
pub mod image;
pub mod scene;
pub mod skin;
pub mod texture;
pub mod validation;

pub use document::{Document, Get, Index};
pub use extras::Extras;
pub use validation::{validate, Checked, Error, Name, Path, Step, Validate, Violation};
