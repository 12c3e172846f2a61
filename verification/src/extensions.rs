//! Vendor-extension schemas.
//!
//! Entities may carry an optional extension sub-structure. When present, the
//! validation engine recurses into it with the same field-visiting contract
//! as for any embedded structure; extension data the engine does not
//! understand is skipped, never treated as an error.

pub mod animation;
pub mod asset;
pub mod buffer;
pub mod image;
pub mod mesh;
pub mod skin;
pub mod texture;
