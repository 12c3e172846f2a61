//! The document root, typed indices, and reference resolution.

use crate::accessor::Accessor;
use crate::asset::Asset;
use crate::buffer;
use crate::buffer::Buffer;
use crate::image::Image;
use crate::scene::Node;
use crate::skin::Skin;
use crate::texture::{Sampler, Texture};
use core::marker::PhantomData;
use vstd::prelude::*;

verus! {

/// A typed reference to an entity of kind `T`: a zero-based position into the
/// document's array of that kind.
///
/// The kind is carried only at the type level; the wire representation is the
/// bare integer. An index has no lookup capability of its own: resolution
/// always goes through the [`Document`] that owns the arrays, and the value
/// is meaningful only with respect to one document snapshot.
#[derive(Debug, PartialEq, Eq)]
pub struct Index<T> {
    /// The zero-based position of the referenced entity.
    pub value: u32,

    /// The entity kind referenced, carried only at the type level.
    pub phantom: PhantomData<T>,
}

impl<T> Clone for Index<T> {
    /// A cloned index references the same position of the same entity kind.
    fn clone(&self) -> (other: Self)
        ensures
            other == *self,
    {
        Index { value: self.value, phantom: PhantomData }
    }
}

impl<T> Copy for Index<T> {

}

impl<T> Index<T> {
    /// Creates a reference to the entity of kind `T` at the given position.
    pub fn new(value: u32) -> (index: Index<T>)
        ensures
            index.value == value,
    {
        Index { value, phantom: PhantomData }
    }

    /// Returns the raw position of this index.
    pub fn value(&self) -> (value: u32)
        ensures
            value == self.value,
    {
        self.value
    }

    /// Resolves this index against the document: the entity at this position
    /// in the document's array of kind `T`, or nothing if the position is out
    /// of bounds. Resolution never mutates the document.
    pub fn get<'a>(&self, document: &'a Document) -> (entity: Option<&'a T>) where
        Document: Get<T>,

        ensures
            match entity {
                Some(entity) => {
                    &&& (self.value as int) < Get::<T>::spec_entries(document).len()
                    &&& *entity == Get::<T>::spec_entries(document)[self.value as int]
                },
                None => (self.value as int) >= Get::<T>::spec_entries(document).len(),
            },
    {
        let entries: &Vec<T> = Get::entries(document);
        if (self.value as usize) < entries.len() {
            Some(&entries[self.value as usize])
        } else {
            None
        }
    }
}

/// Gives the owner of the arrays of entities, the [`Document`], a uniform
/// way to hand out its array of each entity kind.
pub trait Get<T> {
    /// The array of entities of kind `T`, as a sequence.
    spec fn spec_entries(&self) -> Seq<T>;

    /// The array of entities of kind `T`.
    fn entries(&self) -> (entries: &Vec<T>)
        ensures
            entries@ == self.spec_entries(),
    ;
}

/// The root container of a parsed document.
///
/// The document is the sole owner of all entities: it holds one ordered
/// array per entity kind, and entities reference entities of other kinds
/// only by position ([`Index`]), never by ownership. Array positions are
/// stable for the lifetime of the document.
#[derive(Debug, Default)]
pub struct Document {
    /// Typed views into binary data.
    pub accessors: Vec<Accessor>,

    /// Metadata about the document.
    pub asset: Asset,

    /// Buffers of binary data.
    pub buffers: Vec<Buffer>,

    /// Views into the buffers.
    pub buffer_views: Vec<buffer::View>,

    /// Images used by textures.
    pub images: Vec<Image>,

    /// Nodes of the scene hierarchy.
    pub nodes: Vec<Node>,

    /// Texture samplers.
    pub samplers: Vec<Sampler>,

    /// Skins of skinned meshes.
    pub skins: Vec<Skin>,

    /// Textures and their samplers.
    pub textures: Vec<Texture>,
}

impl Get<Accessor> for Document {
    open spec fn spec_entries(&self) -> Seq<Accessor> {
        self.accessors@
    }

    fn entries(&self) -> &Vec<Accessor> {
        &self.accessors
    }
}

impl Get<Buffer> for Document {
    open spec fn spec_entries(&self) -> Seq<Buffer> {
        self.buffers@
    }

    fn entries(&self) -> &Vec<Buffer> {
        &self.buffers
    }
}

impl Get<buffer::View> for Document {
    open spec fn spec_entries(&self) -> Seq<buffer::View> {
        self.buffer_views@
    }

    fn entries(&self) -> &Vec<buffer::View> {
        &self.buffer_views
    }
}

impl Get<Image> for Document {
    open spec fn spec_entries(&self) -> Seq<Image> {
        self.images@
    }

    fn entries(&self) -> &Vec<Image> {
        &self.images
    }
}

impl Get<Node> for Document {
    open spec fn spec_entries(&self) -> Seq<Node> {
        self.nodes@
    }

    fn entries(&self) -> &Vec<Node> {
        &self.nodes
    }
}

impl Get<Sampler> for Document {
    open spec fn spec_entries(&self) -> Seq<Sampler> {
        self.samplers@
    }

    fn entries(&self) -> &Vec<Sampler> {
        &self.samplers
    }
}

impl Get<Skin> for Document {
    open spec fn spec_entries(&self) -> Seq<Skin> {
        self.skins@
    }

    fn entries(&self) -> &Vec<Skin> {
        &self.skins
    }
}

impl Get<Texture> for Document {
    open spec fn spec_entries(&self) -> Seq<Texture> {
        self.textures@
    }

    fn entries(&self) -> &Vec<Texture> {
        &self.textures
    }
}

} // verus!
