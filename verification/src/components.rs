//! Plain components of scene entities: where an entity of a map comes from
//! and by which key it is found again.

use crate::command::{ResourceId, TagHash};
use vstd::prelude::*;

verus! {

/// The identity that the world gives an entity.
#[derive(Clone, Copy, PartialEq, Eq, Structural, Debug)]
pub struct EntityWorldId(pub u64);

/// Where a resource point comes from.
#[derive(Clone, Copy, PartialEq, Eq, Structural, Debug)]
pub enum ResourceOriginType {
    MapData,
    Activity,
    Activity2,
}

/// A content hash of 32 bits, or one of 64 bits.
#[derive(Clone, Copy, PartialEq, Eq, Structural, Debug)]
pub enum ExtendedHash {
    Hash32(TagHash),
    Hash64(u64),
}

impl ExtendedHash {
    /// The hash as a key of 64 bits.
    pub open spec fn spec_key(self) -> u64 {
        match self {
            ExtendedHash::Hash32(tag) => tag.0 as u64,
            ExtendedHash::Hash64(hash) => hash,
        }
    }

    pub fn key(&self) -> (key: u64)
        ensures
            key == self.spec_key(),
    {
        match self {
            ExtendedHash::Hash32(tag) => tag.0 as u64,
            ExtendedHash::Hash64(hash) => *hash,
        }
    }
}

/// What a resource point of a map holds, as far as it decides the key of
/// the point.
#[derive(Clone, Copy, PartialEq, Eq, Structural, Debug)]
pub enum MapResource {
    /// A volume with a model of its own.
    Unk80806aa3 { model: TagHash },
    /// A model placed as it is.
    Unk808068d4 { model: TagHash },
    /// A resource of the kind with this number, without a model of its own.
    Other { kind: u32 },
}

/// A point of a map at which a resource is placed.
#[derive(Clone, Copy, PartialEq, Eq, Structural, Debug)]
pub struct ResourcePoint {
    pub entity: ExtendedHash,
    pub resource_type: u32,
    pub resource: MapResource,
    pub has_havok_data: bool,
    /// Whether the point belongs to the map or to an activity.
    pub origin: ResourceOriginType,
    pub entity_cbuffer: ResourceId,
}

impl ResourcePoint {
    /// The key by which the point's entity is found: the hash of the model
    /// where the resource has a model of its own, else the hash of the
    /// entity.
    pub open spec fn spec_entity_key(self) -> u64 {
        match self.resource {
            MapResource::Unk80806aa3 { model } => model.0 as u64,
            MapResource::Unk808068d4 { model } => model.0 as u64,
            MapResource::Other { .. } => self.entity.spec_key(),
        }
    }

    pub fn entity_key(&self) -> (key: u64)
        ensures
            key == self.spec_entity_key(),
    {
        match self.resource {
            MapResource::Unk80806aa3 { model } => model.0 as u64,
            MapResource::Unk808068d4 { model } => model.0 as u64,
            MapResource::Other { .. } => self.entity.key(),
        }
    }
}

/// The activity group that an entity belongs to.
#[derive(Clone, Copy, PartialEq, Eq, Structural, Debug)]
pub struct ActivityGroup(pub u32);

/// The name that an entity is shown with.
#[derive(Clone, Debug)]
pub struct Label(pub String);

} // verus!
