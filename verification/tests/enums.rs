//! Checked-enumeration classification and wire values.

use gltf_json::buffer::{Target, ARRAY_BUFFER, ELEMENT_ARRAY_BUFFER};
use gltf_json::texture::{
    MagFilter, MinFilter, WrappingMode, CLAMP_TO_EDGE, LINEAR, LINEAR_MIPMAP_LINEAR,
    LINEAR_MIPMAP_NEAREST, MIRRORED_REPEAT, NEAREST, NEAREST_MIPMAP_LINEAR,
    NEAREST_MIPMAP_NEAREST, REPEAT,
};
use gltf_json::Checked;

#[test]
fn mag_filter_gl_enum_values() {
    assert_eq!(MagFilter::Nearest.as_gl_enum(), 9728);
    assert_eq!(MagFilter::Linear.as_gl_enum(), 9729);
}

#[test]
fn mag_filter_classification() {
    assert_eq!(MagFilter::from_gl_enum(NEAREST), Checked::Valid(MagFilter::Nearest));
    assert_eq!(MagFilter::from_gl_enum(LINEAR), Checked::Valid(MagFilter::Linear));
    assert_eq!(MagFilter::from_gl_enum(9730), Checked::Invalid);
    assert_eq!(MagFilter::from_gl_enum(0), Checked::Invalid);
}

#[test]
fn mag_filter_round_trip() {
    for filter in [MagFilter::Nearest, MagFilter::Linear] {
        assert_eq!(MagFilter::from_gl_enum(filter.as_gl_enum()), Checked::Valid(filter));
    }
}

#[test]
fn min_filter_gl_enum_values() {
    assert_eq!(MinFilter::Nearest.as_gl_enum(), 9728);
    assert_eq!(MinFilter::Linear.as_gl_enum(), 9729);
    assert_eq!(MinFilter::NearestMipmapNearest.as_gl_enum(), 9984);
    assert_eq!(MinFilter::LinearMipmapNearest.as_gl_enum(), 9985);
    assert_eq!(MinFilter::NearestMipmapLinear.as_gl_enum(), 9986);
    assert_eq!(MinFilter::LinearMipmapLinear.as_gl_enum(), 9987);
}

#[test]
fn min_filter_classification() {
    assert_eq!(MinFilter::from_gl_enum(NEAREST), Checked::Valid(MinFilter::Nearest));
    assert_eq!(MinFilter::from_gl_enum(LINEAR), Checked::Valid(MinFilter::Linear));
    assert_eq!(
        MinFilter::from_gl_enum(NEAREST_MIPMAP_NEAREST),
        Checked::Valid(MinFilter::NearestMipmapNearest)
    );
    assert_eq!(
        MinFilter::from_gl_enum(LINEAR_MIPMAP_NEAREST),
        Checked::Valid(MinFilter::LinearMipmapNearest)
    );
    assert_eq!(
        MinFilter::from_gl_enum(NEAREST_MIPMAP_LINEAR),
        Checked::Valid(MinFilter::NearestMipmapLinear)
    );
    assert_eq!(
        MinFilter::from_gl_enum(LINEAR_MIPMAP_LINEAR),
        Checked::Valid(MinFilter::LinearMipmapLinear)
    );
    assert_eq!(MinFilter::from_gl_enum(9988), Checked::Invalid);
}

#[test]
fn min_filter_round_trip() {
    for filter in [
        MinFilter::Nearest,
        MinFilter::Linear,
        MinFilter::NearestMipmapNearest,
        MinFilter::LinearMipmapNearest,
        MinFilter::NearestMipmapLinear,
        MinFilter::LinearMipmapLinear,
    ] {
        assert_eq!(MinFilter::from_gl_enum(filter.as_gl_enum()), Checked::Valid(filter));
    }
}

#[test]
fn wrapping_mode_gl_enum_values() {
    assert_eq!(WrappingMode::ClampToEdge.as_gl_enum(), 33_071);
    assert_eq!(WrappingMode::MirroredRepeat.as_gl_enum(), 33_648);
    assert_eq!(WrappingMode::Repeat.as_gl_enum(), 10_497);
}

#[test]
fn wrapping_mode_classification() {
    assert_eq!(
        WrappingMode::from_gl_enum(CLAMP_TO_EDGE),
        Checked::Valid(WrappingMode::ClampToEdge)
    );
    assert_eq!(
        WrappingMode::from_gl_enum(MIRRORED_REPEAT),
        Checked::Valid(WrappingMode::MirroredRepeat)
    );
    assert_eq!(WrappingMode::from_gl_enum(REPEAT), Checked::Valid(WrappingMode::Repeat));
    assert_eq!(WrappingMode::from_gl_enum(12_345), Checked::Invalid);
}

#[test]
fn wrapping_mode_round_trip() {
    for mode in [
        WrappingMode::ClampToEdge,
        WrappingMode::MirroredRepeat,
        WrappingMode::Repeat,
    ] {
        assert_eq!(WrappingMode::from_gl_enum(mode.as_gl_enum()), Checked::Valid(mode));
    }
}

#[test]
fn wrapping_mode_default_is_repeat() {
    assert_eq!(WrappingMode::default(), WrappingMode::Repeat);
}

#[test]
fn target_gl_enum_values() {
    assert_eq!(Target::ArrayBuffer.as_gl_enum(), 34_962);
    assert_eq!(Target::ElementArrayBuffer.as_gl_enum(), 34_963);
}

#[test]
fn target_classification() {
    assert_eq!(Target::from_gl_enum(ARRAY_BUFFER), Checked::Valid(Target::ArrayBuffer));
    assert_eq!(
        Target::from_gl_enum(ELEMENT_ARRAY_BUFFER),
        Checked::Valid(Target::ElementArrayBuffer)
    );
    assert_eq!(Target::from_gl_enum(34_964), Checked::Invalid);
}

#[test]
fn target_round_trip() {
    for target in [Target::ArrayBuffer, Target::ElementArrayBuffer] {
        assert_eq!(Target::from_gl_enum(target.as_gl_enum()), Checked::Valid(target));
    }
}

#[test]
fn checked_observers() {
    let valid: Checked<MagFilter> = Checked::Valid(MagFilter::Nearest);
    let invalid: Checked<MagFilter> = Checked::Invalid;
    assert!(valid.is_valid());
    assert!(!valid.is_invalid());
    assert!(!invalid.is_valid());
    assert!(invalid.is_invalid());
}
