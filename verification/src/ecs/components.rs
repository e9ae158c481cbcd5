//! Plain components of map entities.

use vstd::prelude::*;
use destiny_pkg::{TagHash, TagHash64};
use glam::{Mat4, Vec4};
use crate::tag::{tag_hash_value, tag_hash64_value, tag_value, tag64_value};
use crate::types::AABB;

verus! {

/// Tiger entity world ID
#[derive(Copy, Clone)]
pub struct EntityWorldId(pub u64);

#[derive(Copy, Clone, PartialEq, Eq, Structural)]
pub enum ResourceOriginType {
    /// Placed by the map itself.
    StaticMap,
    Activity,
    Activity2,
}

/// A tag in either of its two widths.
#[derive(Copy, Clone)]
pub enum ExtendedHash {
    Hash32(TagHash),
    Hash64(TagHash64),
}

impl ExtendedHash {
    /// The tag as one 64-bit key: a short tag widened, a long tag as it is.
    pub open spec fn spec_key(self) -> u64 {
        match self {
            ExtendedHash::Hash32(tag) => tag_hash_value(tag) as u64,
            ExtendedHash::Hash64(tag) => tag_hash64_value(tag),
        }
    }

    pub fn key(&self) -> (key: u64)
        ensures
            key == self.spec_key(),
    {
        match self {
            ExtendedHash::Hash32(tag) => tag_value(*tag) as u64,
            ExtendedHash::Hash64(tag) => tag64_value(*tag),
        }
    }
}

/// What a resource point places in the map, as far as its key depends on it.
#[derive(Copy, Clone)]
pub enum MapResource {
    /// A model placed with its bounds and its placement; it is known by the
    /// model's tag.
    Unk80806aa3(AABB, TagHash, Mat4),
    /// A model placed by tag alone.
    Unk808068d4(TagHash),
    /// Any other resource, known by the entity that owns it.
    Other,
}

/// A point of the map at which a resource is placed. `B` is the constant
/// buffer that the device layer keeps for the point's entity.
pub struct ResourcePoint<B> {
    pub entity: ExtendedHash,
    pub resource_type: u32,
    pub resource: MapResource,
    pub has_havok_data: bool,
    /// Does this node belong to an activity?
    pub origin: ResourceOriginType,
    pub entity_cbuffer: B,
}

impl<B> ResourcePoint<B> {
    /// The key under which this point's entity is found: the model's tag for
    /// the two resources that carry one, the entity's own key otherwise.
    pub open spec fn spec_entity_key(&self) -> u64 {
        match self.resource {
            MapResource::Unk80806aa3(_, tag, _) => tag_hash_value(tag) as u64,
            MapResource::Unk808068d4(tag) => tag_hash_value(tag) as u64,
            MapResource::Other => self.entity.spec_key(),
        }
    }

    pub fn entity_key(&self) -> (key: u64)
        ensures
            key == self.spec_entity_key(),
    {
        match self.resource {
            MapResource::Unk80806aa3(_, tag, _) => tag_value(tag) as u64,
            MapResource::Unk808068d4(tag) => tag_value(tag) as u64,
            MapResource::Other => self.entity.key(),
        }
    }
}

pub struct PointLight {
    pub attenuation: Vec4,
}

pub struct CubemapVolume(pub TagHash, pub AABB, pub String);

pub struct ActivityGroup(pub u32);

pub struct Label(pub String);

/// The model of an entity: its renderer `R` and its constant buffer `B`, both
/// of the device layer.
pub struct EntityModel<R, B>(pub R, pub B);

/// A piece of terrain, by its renderer `R` of the device layer.
pub struct Terrain<R>(pub R);

/// A group of instanced static models, by its renderer `R` of the device
/// layer.
pub struct StaticInstances<R>(pub R);

pub struct Water;

} // verus!
