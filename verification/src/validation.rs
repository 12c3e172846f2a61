//! The checked-enumeration wrapper and the validation engine.
//!
//! The engine walks every entity of a [`Document`] in a fixed order: each
//! top-level array in the declared order of the document's fields, each
//! array in position order, and each entity's fields in declaration order,
//! recursing into embedded structures. Every typed reference is resolved
//! against the document and every classified enumeration is inspected; each
//! fault is recorded as a [`Violation`] carrying the exact path of the
//! offending value. The engine never fails: it always completes and returns
//! the complete, ordered list of violations.

use crate::document::{Document, Get, Index};
use vstd::prelude::*;
use vstd::string::StringExecFns;

verus! {

/// The result of classifying a raw wire value against the known variants of an
/// enumeration.
///
/// Classification never fails: a raw value of the right wire type that matches
/// no known variant becomes `Invalid` rather than a parse error, so documents
/// written by newer revisions of the format still parse. Whether an `Invalid`
/// value is acceptable is decided later, by the validation engine.
#[derive(Clone, Copy, Debug, PartialEq, Eq)]
pub enum Checked<T> {
    /// The raw value matched this known variant.
    Valid(T),
    /// The raw value was well-typed but matched no known variant.
    Invalid,
}

impl<T> Checked<T> {
    /// True when the raw value matched a known variant.
    pub fn is_valid(&self) -> (valid: bool)
        ensures
            valid == (self is Valid),
    {
        match self {
            Checked::Valid(_) => true,
            Checked::Invalid => false,
        }
    }

    /// True when the raw value matched no known variant.
    pub fn is_invalid(&self) -> (invalid: bool)
        ensures
            invalid == (self is Invalid),
    {
        match self {
            Checked::Valid(_) => false,
            Checked::Invalid => true,
        }
    }
}

/// The kind of a single reported inconsistency.
#[derive(Clone, Copy, Debug, PartialEq, Eq, Structural)]
pub enum Error {
    /// A typed reference whose position has no corresponding entity in the
    /// document.
    IndexOutOfBounds,

    /// An enumeration field holding a well-typed raw value that matched no
    /// known variant.
    Invalid,
}

/// A field name that can occur as a step of a violation path, spelled as on
/// the wire.
#[derive(Clone, Copy, Debug, PartialEq, Eq, Structural)]
pub enum Name {
    /// The `accessors` array of the document.
    Accessors,
    /// The `asset` metadata of the document.
    Asset,
    /// The `buffer` reference of a buffer view.
    Buffer,
    /// The `buffers` array of the document.
    Buffers,
    /// The `bufferView` reference of an image.
    BufferView,
    /// The `bufferViews` array of the document.
    BufferViews,
    /// The `extensions` sub-structure of an entity.
    Extensions,
    /// The `images` array of the document.
    Images,
    /// The `index` reference of a texture reference.
    Index,
    /// The `inverseBindMatrices` reference of a skin.
    InverseBindMatrices,
    /// The `joints` array of a skin.
    Joints,
    /// The `KHR_materials_variants` sub-structure of a mesh primitive.
    KhrMaterialsVariants,
    /// The `magFilter` of a sampler.
    MagFilter,
    /// The `mappings` array of a material-variant mapping set.
    Mappings,
    /// The `mimeType` of an image.
    MimeType,
    /// The `minFilter` of a sampler.
    MinFilter,
    /// The `nodes` array of the document.
    Nodes,
    /// The `sampler` reference of a texture.
    Sampler,
    /// The `samplers` array of the document.
    Samplers,
    /// The `skeleton` reference of a skin.
    Skeleton,
    /// The `skins` array of the document.
    Skins,
    /// The `source` reference of a texture.
    Source,
    /// The `target` of a buffer view.
    Target,
    /// The `textures` array of the document.
    Textures,
    /// The `wrapS` mode of a sampler.
    WrapS,
    /// The `wrapT` mode of a sampler.
    WrapT,
}

impl Name {
    /// The wire spelling of this field name.
    pub open spec fn spec_str(self) -> Seq<char> {
        match self {
            Name::Accessors => "accessors"@,
            Name::Asset => "asset"@,
            Name::Buffer => "buffer"@,
            Name::Buffers => "buffers"@,
            Name::BufferView => "bufferView"@,
            Name::BufferViews => "bufferViews"@,
            Name::Extensions => "extensions"@,
            Name::Images => "images"@,
            Name::Index => "index"@,
            Name::InverseBindMatrices => "inverseBindMatrices"@,
            Name::Joints => "joints"@,
            Name::KhrMaterialsVariants => "KHR_materials_variants"@,
            Name::MagFilter => "magFilter"@,
            Name::Mappings => "mappings"@,
            Name::MimeType => "mimeType"@,
            Name::MinFilter => "minFilter"@,
            Name::Nodes => "nodes"@,
            Name::Sampler => "sampler"@,
            Name::Samplers => "samplers"@,
            Name::Skeleton => "skeleton"@,
            Name::Skins => "skins"@,
            Name::Source => "source"@,
            Name::Target => "target"@,
            Name::Textures => "textures"@,
            Name::WrapS => "wrapS"@,
            Name::WrapT => "wrapT"@,
        }
    }

    /// The wire spelling of this field name.
    pub fn as_str(&self) -> (name: &'static str)
        ensures
            name@ == self.spec_str(),
    {
        match *self {
            Name::Accessors => "accessors",
            Name::Asset => "asset",
            Name::Buffer => "buffer",
            Name::Buffers => "buffers",
            Name::BufferView => "bufferView",
            Name::BufferViews => "bufferViews",
            Name::Extensions => "extensions",
            Name::Images => "images",
            Name::Index => "index",
            Name::InverseBindMatrices => "inverseBindMatrices",
            Name::Joints => "joints",
            Name::KhrMaterialsVariants => "KHR_materials_variants",
            Name::MagFilter => "magFilter",
            Name::Mappings => "mappings",
            Name::MimeType => "mimeType",
            Name::MinFilter => "minFilter",
            Name::Nodes => "nodes",
            Name::Sampler => "sampler",
            Name::Samplers => "samplers",
            Name::Skeleton => "skeleton",
            Name::Skins => "skins",
            Name::Source => "source",
            Name::Target => "target",
            Name::Textures => "textures",
            Name::WrapS => "wrapS",
            Name::WrapT => "wrapT",
        }
    }
}

/// One step of a path from the document root to a value: either a named
/// field, or a position within an array.
#[derive(Clone, Copy, Debug, PartialEq, Eq)]
pub enum Step {
    /// Descent into the field with this name.
    Field(Name),
    /// Descent into the element at this position of an array.
    Entry(usize),
}

/// The location of a value within the document: the ordered sequence of
/// field-name and array-position steps from the document root to the value.
#[derive(Debug, PartialEq, Eq)]
pub struct Path {
    /// The steps from the document root, outermost first.
    pub steps: Vec<Step>,
}

impl View for Path {
    type V = Seq<Step>;

    open spec fn view(&self) -> Seq<Step> {
        self.steps@
    }
}

/// Copies a sequence of steps.
fn copy_steps(steps: &Vec<Step>) -> (copy: Vec<Step>)
    ensures
        copy@ == steps@,
{
    let mut copy: Vec<Step> = Vec::new();
    let n: usize = steps.len();
    let mut i: usize = 0;
    while i < n
        invariant
            i <= n,
            n == steps@.len(),
            copy@ == steps@.take(i as int),
        decreases n - i,
    {
        copy.push(steps[i]);
        proof {
            assert(steps@.take(i as int + 1) =~= steps@.take(i as int).push(steps@[i as int]));
        }
        i = i + 1;
    }
    proof {
        assert(steps@.take(n as int) =~= steps@);
    }
    copy
}

impl Path {
    /// The path of the document root: no steps.
    pub fn new() -> (path: Path)
        ensures
            path@ == Seq::<Step>::empty(),
    {
        Path { steps: Vec::new() }
    }

    /// This path extended by a descent into the named field.
    pub fn field(&self, name: Name) -> (path: Path)
        ensures
            path@ == self@.push(Step::Field(name)),
    {
        let mut steps = copy_steps(&self.steps);
        steps.push(Step::Field(name));
        Path { steps }
    }

    /// This path extended by a descent into the array element at the given
    /// position.
    pub fn index(&self, position: usize) -> (path: Path)
        ensures
            path@ == self@.push(Step::Entry(position)),
    {
        let mut steps = copy_steps(&self.steps);
        steps.push(Step::Entry(position));
        Path { steps }
    }

    /// The human-readable text of this path, such as `textures[0].sampler`:
    /// field names joined by dots, array positions in square brackets.
    pub fn render(&self) -> (text: String)
        ensures
            text@ == spec_path_str(self@),
    {
        let mut text = String::new();
        let n: usize = self.steps.len();
        let mut i: usize = 0;
        while i < n
            invariant
                i <= n,
                n == self.steps@.len(),
                text@ == spec_path_str(self.steps@.take(i as int)),
            decreases n - i,
        {
            match self.steps[i] {
                Step::Field(name) => {
                    if i > 0 {
                        text.append(".");
                    }
                    text.append(name.as_str());
                },
                Step::Entry(position) => {
                    text.append("[");
                    append_decimal(&mut text, position);
                    text.append("]");
                },
            }
            proof {
                reveal_strlit(".");
                reveal_strlit("[");
                reveal_strlit("]");
                assert(self.steps@.take(i as int + 1).drop_last() =~= self.steps@.take(i as int));
                assert(text@ =~= spec_path_str(self.steps@.take(i as int + 1)));
            }
            i = i + 1;
        }
        proof {
            assert(self.steps@.take(n as int) =~= self.steps@);
        }
        text
    }
}

/// The character of a single decimal digit.
pub open spec fn spec_digit(digit: int) -> char {
    if digit == 0 {
        '0'
    } else if digit == 1 {
        '1'
    } else if digit == 2 {
        '2'
    } else if digit == 3 {
        '3'
    } else if digit == 4 {
        '4'
    } else if digit == 5 {
        '5'
    } else if digit == 6 {
        '6'
    } else if digit == 7 {
        '7'
    } else if digit == 8 {
        '8'
    } else {
        '9'
    }
}

/// The decimal digits of a non-negative number, most significant first.
pub open spec fn spec_decimal(n: int) -> Seq<char>
    decreases n,
{
    if n < 10 {
        seq![spec_digit(n)]
    } else {
        spec_decimal(n / 10).push(spec_digit(n % 10))
    }
}

/// The text of one path step: a field name preceded by a dot unless it is
/// the first step, or an array position in square brackets.
pub open spec fn spec_step_str(step: Step, first: bool) -> Seq<char> {
    match step {
        Step::Field(name) => if first {
            name.spec_str()
        } else {
            seq!['.'] + name.spec_str()
        },
        Step::Entry(position) => seq!['['] + spec_decimal(position as int) + seq![']'],
    }
}

/// The text of a whole path: the text of each step, in order.
pub open spec fn spec_path_str(steps: Seq<Step>) -> Seq<char>
    decreases steps.len(),
{
    if steps.len() == 0 {
        Seq::empty()
    } else {
        spec_path_str(steps.drop_last()) + spec_step_str(steps.last(), steps.len() == 1)
    }
}

/// The one-character text of a decimal digit.
fn digit_str(digit: usize) -> (text: &'static str)
    requires
        digit < 10,
    ensures
        text@ == seq![spec_digit(digit as int)],
{
    proof {
        reveal_strlit("0");
        reveal_strlit("1");
        reveal_strlit("2");
        reveal_strlit("3");
        reveal_strlit("4");
        reveal_strlit("5");
        reveal_strlit("6");
        reveal_strlit("7");
        reveal_strlit("8");
        reveal_strlit("9");
    }
    let text = if digit == 0 {
        "0"
    } else if digit == 1 {
        "1"
    } else if digit == 2 {
        "2"
    } else if digit == 3 {
        "3"
    } else if digit == 4 {
        "4"
    } else if digit == 5 {
        "5"
    } else if digit == 6 {
        "6"
    } else if digit == 7 {
        "7"
    } else if digit == 8 {
        "8"
    } else {
        "9"
    };
    proof {
        assert(text@ =~= seq![spec_digit(digit as int)]);
    }
    text
}

/// Appends the decimal digits of `n` to `out`, most significant first.
fn append_decimal(out: &mut String, n: usize)
    ensures
        final(out)@ == old(out)@ + spec_decimal(n as int),
    decreases n,
{
    if n < 10 {
        out.append(digit_str(n));
    } else {
        let rest: usize = n / 10;
        let digit: usize = n % 10;
        append_decimal(out, rest);
        out.append(digit_str(digit));
        proof {
            assert(out@ =~= old(out)@ + spec_decimal(n as int));
        }
    }
}

/// A single reported inconsistency: the path of the offending value and the
/// kind of fault found there.
///
/// Violations are created only by the validation engine; they are collected
/// in traversal order and never deduplicated.
#[derive(Debug, PartialEq, Eq)]
pub struct Violation {
    /// The location of the offending value within the document.
    pub path: Path,

    /// The kind of fault found at that location.
    pub error: Error,
}

/// The mathematical abstraction of a [`Violation`]: its path as a sequence
/// of steps, and its kind.
pub ghost struct ViolationView {
    /// The location of the offending value within the document.
    pub path: Seq<Step>,

    /// The kind of fault found at that location.
    pub error: Error,
}

impl View for Violation {
    type V = ViolationView;

    open spec fn view(&self) -> ViolationView {
        ViolationView { path: self.path@, error: self.error }
    }
}

/// The abstractions of a sequence of violations, in order.
pub open spec fn violation_views(violations: Seq<Violation>) -> Seq<ViolationView> {
    violations.map_values(|violation: Violation| violation@)
}

/// A value of the document that the validation engine visits.
///
/// `spec_violations` is the complete, ordered sequence of violations that
/// the value contributes when it sits at `prefix` within the given document;
/// `validate` appends exactly that sequence to the report. Fields that can
/// hold no reference and no classified enumeration contribute nothing and
/// are not visited.
pub trait Validate {
    /// The violations this value contributes at `prefix`, in order.
    spec fn spec_violations(&self, document: &Document, prefix: Seq<Step>) -> Seq<ViolationView>;

    /// Appends to `report` exactly the violations this value contributes at
    /// `path`, in order.
    fn validate(&self, document: &Document, path: Path, report: &mut Vec<Violation>)
        ensures
            violation_views(final(report)@) == violation_views(old(report)@)
                + self.spec_violations(document, path@),
    ;
}

impl<T> Validate for Index<T> where Document: Get<T> {
    /// An index contributes an out-of-bounds violation at its own path when
    /// its position has no entity in the document's array of kind `T`, and
    /// nothing otherwise.
    open spec fn spec_violations(&self, document: &Document, prefix: Seq<Step>) -> Seq<
        ViolationView,
    > {
        if (self.value as int) < <Document as Get<T>>::spec_entries(document).len() {
            Seq::empty()
        } else {
            seq![ViolationView { path: prefix, error: Error::IndexOutOfBounds }]
        }
    }

    fn validate(&self, document: &Document, path: Path, report: &mut Vec<Violation>) {
        let ghost prefix = path@;
        match self.get(document) {
            Some(_) => {
                proof {
                    assert(violation_views(report@) =~= violation_views(report@)
                        + Seq::<ViolationView>::empty());
                }
            },
            None => {
                report.push(Violation { path, error: Error::IndexOutOfBounds });
                proof {
                    assert(violation_views(report@) =~= violation_views(old(report)@)
                        + seq![ViolationView { path: prefix, error: Error::IndexOutOfBounds }]);
                }
            },
        }
    }
}

impl<T> Validate for Checked<T> {
    /// A classified enumeration contributes an unrecognized-value violation
    /// at its own path when it is `Invalid`, and nothing otherwise.
    open spec fn spec_violations(&self, document: &Document, prefix: Seq<Step>) -> Seq<
        ViolationView,
    > {
        match self {
            Checked::Valid(_) => Seq::empty(),
            Checked::Invalid => seq![ViolationView { path: prefix, error: Error::Invalid }],
        }
    }

    fn validate(&self, document: &Document, path: Path, report: &mut Vec<Violation>) {
        let ghost prefix = path@;
        match self {
            Checked::Valid(_) => {
                proof {
                    assert(violation_views(report@) =~= violation_views(report@)
                        + Seq::<ViolationView>::empty());
                }
            },
            Checked::Invalid => {
                report.push(Violation { path, error: Error::Invalid });
                proof {
                    assert(violation_views(report@) =~= violation_views(old(report)@)
                        + seq![ViolationView { path: prefix, error: Error::Invalid }]);
                }
            },
        }
    }
}

impl<T: Validate> Validate for Option<T> {
    /// An optional field contributes the violations of its value when
    /// present, and nothing when absent.
    open spec fn spec_violations(&self, document: &Document, prefix: Seq<Step>) -> Seq<
        ViolationView,
    > {
        match self {
            Some(inner) => inner.spec_violations(document, prefix),
            None => Seq::empty(),
        }
    }

    fn validate(&self, document: &Document, path: Path, report: &mut Vec<Violation>) {
        match self {
            Some(inner) => inner.validate(document, path, report),
            None => {
                proof {
                    assert(violation_views(report@) =~= violation_views(report@)
                        + Seq::<ViolationView>::empty());
                }
            },
        }
    }
}

/// The violations contributed by an array of entities: each entity's
/// contribution at `prefix` extended by the entity's position, concatenated
/// in position order.
pub open spec fn array_violations<T: Validate>(
    entries: Seq<T>,
    document: &Document,
    prefix: Seq<Step>,
) -> Seq<ViolationView>
    decreases entries.len(),
{
    if entries.len() == 0 {
        Seq::empty()
    } else {
        array_violations(entries.drop_last(), document, prefix) + entries.last().spec_violations(
            document,
            prefix.push(Step::Entry((entries.len() - 1) as usize)),
        )
    }
}

/// Extending an array by one entity extends its violations by exactly that
/// entity's contribution.
proof fn lemma_array_violations_take_step<T: Validate>(
    entries: Seq<T>,
    document: &Document,
    prefix: Seq<Step>,
    i: int,
)
    requires
        0 <= i < entries.len(),
    ensures
        array_violations(entries.take(i + 1), document, prefix) == array_violations(
            entries.take(i),
            document,
            prefix,
        ) + entries[i].spec_violations(document, prefix.push(Step::Entry(i as usize))),
{
    assert(entries.take(i + 1).drop_last() =~= entries.take(i));
    assert(entries.take(i + 1).last() == entries[i]);
}

/// Appends to `report` exactly the violations contributed by the entities
/// of the array, in position order, each under `path` extended by the
/// entity's position.
pub fn validate_array<T: Validate>(
    entries: &Vec<T>,
    document: &Document,
    path: &Path,
    report: &mut Vec<Violation>,
)
    ensures
        violation_views(final(report)@) == violation_views(old(report)@) + array_violations(
            entries@,
            document,
            path@,
        ),
{
    let ghost pre = report@;
    let n: usize = entries.len();
    let mut i: usize = 0;
    while i < n
        invariant
            i <= n,
            n == entries@.len(),
            violation_views(report@) == violation_views(pre) + array_violations(
                entries@.take(i as int),
                document,
                path@,
            ),
        decreases n - i,
    {
        let child = path.index(i);
        entries[i].validate(document, child, report);
        proof {
            lemma_array_violations_take_step(entries@, document, path@, i as int);
            assert(violation_views(report@) =~= violation_views(pre) + array_violations(
                entries@.take(i as int + 1),
                document,
                path@,
            ));
        }
        i = i + 1;
    }
    proof {
        assert(entries@.take(n as int) =~= entries@);
    }
}

/// An array contributes no violations exactly when none of its entities
/// contributes any.
pub proof fn lemma_array_violations_empty<T: Validate>(
    entries: Seq<T>,
    document: &Document,
    prefix: Seq<Step>,
)
    ensures
        (array_violations(entries, document, prefix).len() == 0) <==> (forall|i: int|
            0 <= i < entries.len() ==> #[trigger] entries[i].spec_violations(
                document,
                prefix.push(Step::Entry(i as usize)),
            ).len() == 0),
    decreases entries.len(),
{
    if entries.len() == 0 {
    } else {
        let sub = entries.drop_last();
        let n = entries.len() as int;
        lemma_array_violations_empty(sub, document, prefix);
        assert(entries.last() == entries[n - 1]);
        if array_violations(entries, document, prefix).len() == 0 {
            assert forall|i: int| 0 <= i < n implies #[trigger] entries[i].spec_violations(
                document,
                prefix.push(Step::Entry(i as usize)),
            ).len() == 0 by {
                if i < n - 1 {
                    assert(sub[i] == entries[i]);
                }
            }
        }
        if forall|i: int|
            0 <= i < n ==> #[trigger] entries[i].spec_violations(
                document,
                prefix.push(Step::Entry(i as usize)),
            ).len() == 0 {
            assert forall|i: int| 0 <= i < sub.len() implies #[trigger] sub[i].spec_violations(
                document,
                prefix.push(Step::Entry(i as usize)),
            ).len() == 0 by {
                assert(sub[i] == entries[i]);
            }
            assert(entries[n - 1].spec_violations(
                document,
                prefix.push(Step::Entry((n - 1) as usize)),
            ).len() == 0);
        }
    }
}

/// The complete, ordered sequence of violations of a document: the
/// contribution of each top-level array, and of the asset metadata, in the
/// declared order of the document's fields.
pub open spec fn document_violations(document: &Document) -> Seq<ViolationView> {
    array_violations(document.accessors@, document, seq![Step::Field(Name::Accessors)])
        + document.asset.spec_violations(document, seq![Step::Field(Name::Asset)])
        + array_violations(document.buffers@, document, seq![Step::Field(Name::Buffers)])
        + array_violations(document.buffer_views@, document, seq![Step::Field(Name::BufferViews)])
        + array_violations(document.images@, document, seq![Step::Field(Name::Images)])
        + array_violations(document.nodes@, document, seq![Step::Field(Name::Nodes)])
        + array_violations(document.samplers@, document, seq![Step::Field(Name::Samplers)])
        + array_violations(document.skins@, document, seq![Step::Field(Name::Skins)])
        + array_violations(document.textures@, document, seq![Step::Field(Name::Textures)])
}

/// Validates a document: resolves every typed reference and inspects every
/// classified enumeration reachable from the root, and returns the
/// complete list of violations, in traversal order.
///
/// The engine never fails and never mutates the document; an empty result
/// means the document is self-consistent under this engine's rules.
pub fn validate(document: &Document) -> (violations: Vec<Violation>)
    ensures
        violation_views(violations@) == document_violations(document),
{
    let mut report: Vec<Violation> = Vec::new();
    let root = Path::new();
    validate_array(&document.accessors, document, &root.field(Name::Accessors), &mut report);
    document.asset.validate(document, root.field(Name::Asset), &mut report);
    validate_array(&document.buffers, document, &root.field(Name::Buffers), &mut report);
    validate_array(&document.buffer_views, document, &root.field(Name::BufferViews), &mut report);
    validate_array(&document.images, document, &root.field(Name::Images), &mut report);
    validate_array(&document.nodes, document, &root.field(Name::Nodes), &mut report);
    validate_array(&document.samplers, document, &root.field(Name::Samplers), &mut report);
    validate_array(&document.skins, document, &root.field(Name::Skins), &mut report);
    validate_array(&document.textures, document, &root.field(Name::Textures), &mut report);
    proof {
        assert(Seq::<Step>::empty().push(Step::Field(Name::Accessors)) =~= seq![
            Step::Field(Name::Accessors),
        ]);
        assert(Seq::<Step>::empty().push(Step::Field(Name::Asset)) =~= seq![
            Step::Field(Name::Asset),
        ]);
        assert(Seq::<Step>::empty().push(Step::Field(Name::Buffers)) =~= seq![
            Step::Field(Name::Buffers),
        ]);
        assert(Seq::<Step>::empty().push(Step::Field(Name::BufferViews)) =~= seq![
            Step::Field(Name::BufferViews),
        ]);
        assert(Seq::<Step>::empty().push(Step::Field(Name::Images)) =~= seq![
            Step::Field(Name::Images),
        ]);
        assert(Seq::<Step>::empty().push(Step::Field(Name::Nodes)) =~= seq![
            Step::Field(Name::Nodes),
        ]);
        assert(Seq::<Step>::empty().push(Step::Field(Name::Samplers)) =~= seq![
            Step::Field(Name::Samplers),
        ]);
        assert(Seq::<Step>::empty().push(Step::Field(Name::Skins)) =~= seq![
            Step::Field(Name::Skins),
        ]);
        assert(Seq::<Step>::empty().push(Step::Field(Name::Textures)) =~= seq![
            Step::Field(Name::Textures),
        ]);
        assert(violation_views(report@) =~= document_violations(document));
    }
    report
}

/// Validation is deterministic and free of hidden state: any two
/// validations of the same document snapshot report exactly the same
/// violations, in the same order. In particular, validating a document a
/// second time, without modification, yields the same list again.
pub proof fn lemma_validate_deterministic(
    first: Seq<Violation>,
    second: Seq<Violation>,
    document: &Document,
)
    requires
        violation_views(first) == document_violations(document),
        violation_views(second) == document_violations(document),
    ensures
        violation_views(first) == violation_views(second),
{
}

/// A document is self-consistent under the engine's rules: every typed
/// reference of every entity resolves in the document, and every classified
/// enumeration holds a recognized value.
pub open spec fn document_consistent(document: &Document) -> bool {
    &&& forall|i: int|
        0 <= i < document.buffer_views@.len() ==> (#[trigger] document.buffer_views@[i]).spec_consistent(
            document,
        )
    &&& forall|i: int|
        0 <= i < document.images@.len() ==> (#[trigger] document.images@[i]).spec_consistent(
            document,
        )
    &&& forall|i: int|
        0 <= i < document.samplers@.len() ==> (#[trigger] document.samplers@[i]).spec_consistent()
    &&& forall|i: int|
        0 <= i < document.skins@.len() ==> (#[trigger] document.skins@[i]).spec_consistent(
            document,
        )
    &&& forall|i: int|
        0 <= i < document.textures@.len() ==> (#[trigger] document.textures@[i]).spec_consistent(
            document,
        )
}

/// An empty validation result means exactly that the document is
/// self-consistent: every reference resolves and every classified
/// enumeration is recognized.
pub proof fn lemma_accepted_means_consistent(document: &Document)
    ensures
        (document_violations(document).len() == 0) <==> document_consistent(document),
{
    let accessors_prefix = seq![Step::Field(Name::Accessors)];
    let buffers_prefix = seq![Step::Field(Name::Buffers)];
    let views_prefix = seq![Step::Field(Name::BufferViews)];
    let images_prefix = seq![Step::Field(Name::Images)];
    let nodes_prefix = seq![Step::Field(Name::Nodes)];
    let samplers_prefix = seq![Step::Field(Name::Samplers)];
    let skins_prefix = seq![Step::Field(Name::Skins)];
    let textures_prefix = seq![Step::Field(Name::Textures)];
    lemma_array_violations_empty(document.accessors@, document, accessors_prefix);
    lemma_array_violations_empty(document.buffers@, document, buffers_prefix);
    lemma_array_violations_empty(document.buffer_views@, document, views_prefix);
    lemma_array_violations_empty(document.images@, document, images_prefix);
    lemma_array_violations_empty(document.nodes@, document, nodes_prefix);
    lemma_array_violations_empty(document.samplers@, document, samplers_prefix);
    lemma_array_violations_empty(document.skins@, document, skins_prefix);
    lemma_array_violations_empty(document.textures@, document, textures_prefix);
    crate::asset::lemma_asset_violations_empty(
        document.asset,
        document,
        seq![Step::Field(Name::Asset)],
    );
    assert forall|i: int| 0 <= i < document.accessors@.len() implies (#[trigger] document.accessors@[i].spec_violations(
        document,
        accessors_prefix.push(Step::Entry(i as usize)),
    )).len() == 0 by {}
    assert(array_violations(document.accessors@, document, accessors_prefix).len() == 0);
    assert forall|i: int| 0 <= i < document.buffers@.len() implies (#[trigger] document.buffers@[i].spec_violations(
        document,
        buffers_prefix.push(Step::Entry(i as usize)),
    )).len() == 0 by {
        crate::buffer::lemma_buffer_violations_empty(
            document.buffers@[i],
            document,
            buffers_prefix.push(Step::Entry(i as usize)),
        );
    }
    assert(array_violations(document.buffers@, document, buffers_prefix).len() == 0);
    assert forall|i: int| 0 <= i < document.nodes@.len() implies (#[trigger] document.nodes@[i].spec_violations(
        document,
        nodes_prefix.push(Step::Entry(i as usize)),
    )).len() == 0 by {}
    assert(array_violations(document.nodes@, document, nodes_prefix).len() == 0);
    if document_violations(document).len() == 0 {
        assert forall|i: int| 0 <= i < document.buffer_views@.len() implies (
        #[trigger] document.buffer_views@[i]).spec_consistent(document) by {
            let child = views_prefix.push(Step::Entry(i as usize));
            assert(document.buffer_views@[i].spec_violations(document, child).len() == 0);
            crate::buffer::lemma_view_violations_empty(document.buffer_views@[i], document, child);
        }
        assert forall|i: int| 0 <= i < document.images@.len() implies (#[trigger] document.images@[i]).spec_consistent(
            document,
        ) by {
            let child = images_prefix.push(Step::Entry(i as usize));
            assert(document.images@[i].spec_violations(document, child).len() == 0);
            crate::image::lemma_image_violations_empty(document.images@[i], document, child);
        }
        assert forall|i: int| 0 <= i < document.samplers@.len() implies (
        #[trigger] document.samplers@[i]).spec_consistent() by {
            let child = samplers_prefix.push(Step::Entry(i as usize));
            assert(document.samplers@[i].spec_violations(document, child).len() == 0);
            crate::texture::lemma_sampler_violations_empty(document.samplers@[i], document, child);
        }
        assert forall|i: int| 0 <= i < document.skins@.len() implies (#[trigger] document.skins@[i]).spec_consistent(
            document,
        ) by {
            let child = skins_prefix.push(Step::Entry(i as usize));
            assert(document.skins@[i].spec_violations(document, child).len() == 0);
            crate::skin::lemma_skin_violations_empty(document.skins@[i], document, child);
        }
        assert forall|i: int| 0 <= i < document.textures@.len() implies (
        #[trigger] document.textures@[i]).spec_consistent(document) by {
            let child = textures_prefix.push(Step::Entry(i as usize));
            assert(document.textures@[i].spec_violations(document, child).len() == 0);
            crate::texture::lemma_texture_violations_empty(document.textures@[i], document, child);
        }
    }
    if document_consistent(document) {
        assert forall|i: int| 0 <= i < document.buffer_views@.len() implies (
        #[trigger] document.buffer_views@[i].spec_violations(
            document,
            views_prefix.push(Step::Entry(i as usize)),
        )).len() == 0 by {
            crate::buffer::lemma_view_violations_empty(
                document.buffer_views@[i],
                document,
                views_prefix.push(Step::Entry(i as usize)),
            );
        }
        assert(array_violations(document.buffer_views@, document, views_prefix).len() == 0);
        assert forall|i: int| 0 <= i < document.images@.len() implies (
        #[trigger] document.images@[i].spec_violations(
            document,
            images_prefix.push(Step::Entry(i as usize)),
        )).len() == 0 by {
            crate::image::lemma_image_violations_empty(
                document.images@[i],
                document,
                images_prefix.push(Step::Entry(i as usize)),
            );
        }
        assert(array_violations(document.images@, document, images_prefix).len() == 0);
        assert forall|i: int| 0 <= i < document.samplers@.len() implies (
        #[trigger] document.samplers@[i].spec_violations(
            document,
            samplers_prefix.push(Step::Entry(i as usize)),
        )).len() == 0 by {
            crate::texture::lemma_sampler_violations_empty(
                document.samplers@[i],
                document,
                samplers_prefix.push(Step::Entry(i as usize)),
            );
        }
        assert(array_violations(document.samplers@, document, samplers_prefix).len() == 0);
        assert forall|i: int| 0 <= i < document.skins@.len() implies (
        #[trigger] document.skins@[i].spec_violations(
            document,
            skins_prefix.push(Step::Entry(i as usize)),
        )).len() == 0 by {
            crate::skin::lemma_skin_violations_empty(
                document.skins@[i],
                document,
                skins_prefix.push(Step::Entry(i as usize)),
            );
        }
        assert(array_violations(document.skins@, document, skins_prefix).len() == 0);
        assert forall|i: int| 0 <= i < document.textures@.len() implies (
        #[trigger] document.textures@[i].spec_violations(
            document,
            textures_prefix.push(Step::Entry(i as usize)),
        )).len() == 0 by {
            crate::texture::lemma_texture_violations_empty(
                document.textures@[i],
                document,
                textures_prefix.push(Step::Entry(i as usize)),
            );
        }
        assert(array_violations(document.textures@, document, textures_prefix).len() == 0);
        assert(document_violations(document).len() == 0);
    }
}

/// A document containing zero entities has no violations.
pub proof fn lemma_empty_document_valid(document: &Document)
    requires
        document.accessors@.len() == 0,
        document.buffers@.len() == 0,
        document.buffer_views@.len() == 0,
        document.images@.len() == 0,
        document.nodes@.len() == 0,
        document.samplers@.len() == 0,
        document.skins@.len() == 0,
        document.textures@.len() == 0,
    ensures
        document_violations(document) == Seq::<ViolationView>::empty(),
{
    assert(document_violations(document) =~= Seq::<ViolationView>::empty());
}

} // verus!
