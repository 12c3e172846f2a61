//! The validation engine: traversal, violation kinds, paths, and order.

use gltf_json::buffer::{Buffer, Target, View};
use gltf_json::extensions::mesh::{KhrMaterialsVariants, Mapping, Primitive};
use gltf_json::extras::Void;
use gltf_json::Validate;
use gltf_json::image::Image;
use gltf_json::scene::Node;
use gltf_json::skin::Skin;
use gltf_json::texture::{Info, MagFilter, Sampler, Texture};
use gltf_json::{validate, Checked, Document, Error, Index, Name, Path, Step, Violation};

fn buffer() -> Buffer {
    Buffer {
        byte_length: 8,
        uri: None,
        extensions: None,
        extras: Void {},
    }
}

fn view(buffer: u32) -> View {
    View {
        buffer: Index::new(buffer),
        byte_length: 4,
        byte_offset: None,
        byte_stride: None,
        target: None,
        extensions: None,
        extras: Void {},
    }
}

fn image() -> Image {
    Image {
        buffer_view: None,
        mime_type: None,
        uri: Some(String::from("image.png")),
        extensions: None,
        extras: Void {},
    }
}

fn texture(sampler: Option<u32>, source: u32) -> Texture {
    Texture {
        sampler: sampler.map(Index::new),
        source: Index::new(source),
        extensions: None,
        extras: Void {},
    }
}

fn path(steps: Vec<Step>) -> Path {
    Path { steps }
}

#[test]
fn empty_document_has_no_violations() {
    let document = Document::default();
    assert!(validate(&document).is_empty());
}

#[test]
fn validation_is_deterministic_and_idempotent() {
    let mut document = Document::default();
    document.samplers = vec![Sampler {
        mag_filter: Some(MagFilter::from_gl_enum(1)),
        ..Sampler::default()
    }];
    document.textures = vec![texture(Some(9), 0)];
    let first = validate(&document);
    let second = validate(&document);
    assert_eq!(first, second);
    let third = validate(&document);
    assert_eq!(second, third);
}

#[test]
fn texture_sampler_out_of_bounds() {
    let mut document = Document::default();
    document.images = vec![image()];
    document.samplers = vec![Sampler::default(), Sampler::default()];
    document.textures = vec![texture(Some(5), 0)];
    let violations = validate(&document);
    assert_eq!(violations.len(), 1);
    assert_eq!(violations[0].error, Error::IndexOutOfBounds);
    assert_eq!(violations[0].path.render(), "textures[0].sampler");
    assert_eq!(
        violations[0],
        Violation {
            path: path(vec![
                Step::Field(Name::Textures),
                Step::Entry(0),
                Step::Field(Name::Sampler),
            ]),
            error: Error::IndexOutOfBounds,
        }
    );
}

#[test]
fn sampler_unrecognized_wrap_mode() {
    let mut document = Document::default();
    document.samplers = vec![Sampler {
        wrap_s: Checked::Invalid,
        ..Sampler::default()
    }];
    let violations = validate(&document);
    assert_eq!(violations.len(), 1);
    assert_eq!(violations[0].error, Error::Invalid);
    assert_eq!(violations[0].path.render(), "samplers[0].wrapS");
}

#[test]
fn buffer_views_in_bounds_are_accepted() {
    let mut document = Document::default();
    document.buffers = vec![buffer(), buffer()];
    document.buffer_views = vec![view(0), view(1)];
    assert!(validate(&document).is_empty());
}

#[test]
fn buffer_view_out_of_bounds_buffer() {
    let mut document = Document::default();
    document.buffers = vec![buffer()];
    document.buffer_views = vec![view(0), view(3)];
    let violations = validate(&document);
    assert_eq!(violations.len(), 1);
    assert_eq!(violations[0].error, Error::IndexOutOfBounds);
    assert_eq!(violations[0].path.render(), "bufferViews[1].buffer");
}

#[test]
fn buffer_view_unrecognized_target() {
    let mut document = Document::default();
    document.buffers = vec![buffer()];
    let mut faulty = view(0);
    faulty.target = Some(Target::from_gl_enum(34_964));
    document.buffer_views = vec![faulty];
    let violations = validate(&document);
    assert_eq!(violations.len(), 1);
    assert_eq!(violations[0].error, Error::Invalid);
    assert_eq!(violations[0].path.render(), "bufferViews[0].target");
}

#[test]
fn image_buffer_view_out_of_bounds() {
    let mut document = Document::default();
    let mut faulty = image();
    faulty.buffer_view = Some(Index::new(2));
    document.images = vec![faulty];
    let violations = validate(&document);
    assert_eq!(violations.len(), 1);
    assert_eq!(violations[0].error, Error::IndexOutOfBounds);
    assert_eq!(violations[0].path.render(), "images[0].bufferView");
}

#[test]
fn skin_joint_out_of_bounds() {
    let mut document = Document::default();
    document.nodes = vec![Node {}];
    document.skins = vec![Skin {
        extensions: None,
        extras: Void {},
        inverse_bind_matrices: None,
        joints: vec![Index::new(0), Index::new(7)],
        skeleton: Some(Index::new(0)),
    }];
    let violations = validate(&document);
    assert_eq!(violations.len(), 1);
    assert_eq!(violations[0].error, Error::IndexOutOfBounds);
    assert_eq!(violations[0].path.render(), "skins[0].joints[1]");
}

#[test]
fn skin_inverse_bind_matrices_out_of_bounds() {
    let mut document = Document::default();
    document.skins = vec![Skin {
        extensions: None,
        extras: Void {},
        inverse_bind_matrices: Some(Index::new(0)),
        joints: vec![],
        skeleton: None,
    }];
    let violations = validate(&document);
    assert_eq!(violations.len(), 1);
    assert_eq!(violations[0].error, Error::IndexOutOfBounds);
    assert_eq!(violations[0].path.render(), "skins[0].inverseBindMatrices");
}

#[test]
fn violations_follow_traversal_order() {
    let mut document = Document::default();
    // One faulty view, one faulty sampler, one texture with two faults.
    document.buffer_views = vec![view(0)];
    document.samplers = vec![Sampler {
        wrap_t: Checked::Invalid,
        ..Sampler::default()
    }];
    document.textures = vec![texture(Some(4), 9)];
    let violations = validate(&document);
    let rendered: Vec<(String, Error)> = violations
        .iter()
        .map(|violation| (violation.path.render(), violation.error))
        .collect();
    assert_eq!(
        rendered,
        vec![
            (String::from("bufferViews[0].buffer"), Error::IndexOutOfBounds),
            (String::from("samplers[0].wrapT"), Error::Invalid),
            (String::from("textures[0].sampler"), Error::IndexOutOfBounds),
            (String::from("textures[0].source"), Error::IndexOutOfBounds),
        ]
    );
}

#[test]
fn unrecognized_filters_are_reported_in_field_order() {
    let mut document = Document::default();
    document.samplers = vec![Sampler {
        mag_filter: Some(MagFilter::from_gl_enum(1)),
        min_filter: Some(Checked::Invalid),
        wrap_s: Checked::Invalid,
        ..Sampler::default()
    }];
    let violations = validate(&document);
    let rendered: Vec<String> = violations
        .iter()
        .map(|violation| violation.path.render())
        .collect();
    assert_eq!(
        rendered,
        vec![
            String::from("samplers[0].magFilter"),
            String::from("samplers[0].minFilter"),
            String::from("samplers[0].wrapS"),
        ]
    );
    assert!(violations.iter().all(|violation| violation.error == Error::Invalid));
}

#[test]
fn repeated_faults_are_not_deduplicated() {
    let mut document = Document::default();
    document.images = vec![image()];
    // Two textures referencing the same missing sampler: two violations.
    document.textures = vec![texture(Some(5), 0), texture(Some(5), 0)];
    let violations = validate(&document);
    assert_eq!(violations.len(), 2);
    assert_eq!(violations[0].path.render(), "textures[0].sampler");
    assert_eq!(violations[1].path.render(), "textures[1].sampler");
    assert!(violations.iter().all(|violation| violation.error == Error::IndexOutOfBounds));
}

#[test]
fn texture_reference_out_of_bounds_index() {
    let document = Document::default();
    let info = Info {
        index: Index::new(0),
        tex_coord: 0,
        extensions: None,
        extras: Void {},
    };
    let mut report: Vec<Violation> = Vec::new();
    info.validate(&document, Path::new(), &mut report);
    assert_eq!(report.len(), 1);
    assert_eq!(report[0].error, Error::IndexOutOfBounds);
    assert_eq!(report[0].path.render(), "index");
}

#[test]
fn mesh_extension_is_traversed_without_violations() {
    let document = Document::default();
    let primitive = Primitive {
        khr_materials_variants: Some(KhrMaterialsVariants {
            mappings: vec![
                Mapping { material: 0, variants: vec![1, 2] },
                Mapping { material: 3, variants: vec![] },
            ],
        }),
    };
    let mut report: Vec<Violation> = Vec::new();
    primitive.validate(&document, Path::new(), &mut report);
    assert!(report.is_empty());
}

#[test]
fn path_render_spells_steps() {
    let rendered = Path::new()
        .field(Name::Textures)
        .index(0)
        .field(Name::Sampler)
        .render();
    assert_eq!(rendered, "textures[0].sampler");
    assert_eq!(Path::new().render(), "");
    assert_eq!(
        Path::new().field(Name::Nodes).index(1234).render(),
        "nodes[1234]"
    );
    assert_eq!(Name::KhrMaterialsVariants.as_str(), "KHR_materials_variants");
    assert_eq!(Name::InverseBindMatrices.as_str(), "inverseBindMatrices");
}
