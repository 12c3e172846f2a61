//! Typed indices, resolution through the document, and defaults.

use gltf_json::asset::Asset;
use gltf_json::buffer::Buffer;
use gltf_json::extras::Void;
use gltf_json::texture::{Sampler, WrappingMode};
use gltf_json::{Checked, Document, Index};

fn buffer(byte_length: u32) -> Buffer {
    Buffer {
        byte_length,
        uri: None,
        extensions: None,
        extras: Void {},
    }
}

#[test]
fn index_new_and_value() {
    let index: Index<Buffer> = Index::new(7);
    assert_eq!(index.value(), 7);
}

#[test]
fn index_equality_is_structural() {
    assert_eq!(Index::<Buffer>::new(3), Index::<Buffer>::new(3));
    assert_ne!(Index::<Buffer>::new(3), Index::<Buffer>::new(4));
    assert!(Index::<Buffer>::new(3).value() < Index::<Buffer>::new(4).value());
}

#[test]
fn index_get_resolves_in_bounds_positions() {
    let mut document = Document::default();
    document.buffers = vec![buffer(16), buffer(32)];
    let first: Index<Buffer> = Index::new(0);
    let second: Index<Buffer> = Index::new(1);
    assert_eq!(first.get(&document).unwrap().byte_length, 16);
    assert_eq!(second.get(&document).unwrap().byte_length, 32);
}

#[test]
fn index_get_rejects_out_of_bounds_positions() {
    let mut document = Document::default();
    document.buffers = vec![buffer(16), buffer(32)];
    assert!(Index::<Buffer>::new(2).get(&document).is_none());
    assert!(Index::<Buffer>::new(1000).get(&document).is_none());
}

#[test]
fn index_get_on_empty_document() {
    let document = Document::default();
    assert!(Index::<Buffer>::new(0).get(&document).is_none());
}

#[test]
fn asset_default_targets_version_two() {
    let asset = Asset::default();
    assert_eq!(asset.version, "2.0");
    assert!(asset.copyright.is_none());
    assert!(asset.generator.is_none());
    assert!(asset.min_version.is_none());
    assert!(asset.extensions.is_none());
}

#[test]
fn sampler_default_wraps_repeat() {
    let sampler = Sampler::default();
    assert!(sampler.mag_filter.is_none());
    assert!(sampler.min_filter.is_none());
    assert_eq!(sampler.wrap_s, Checked::Valid(WrappingMode::Repeat));
    assert_eq!(sampler.wrap_t, Checked::Valid(WrappingMode::Repeat));
}
