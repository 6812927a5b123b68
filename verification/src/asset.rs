//! Plain identities for the shared resources and scene entities that the
//! billboard pipeline refers to but never owns.

use vstd::prelude::*;

verus! {

/// The identifier of the placeholder that a default handle of an asset store
/// refers to.
pub const DEFAULT_ASSET_UUID: u128 = 200809721996911295814598172825939264631;

/// Identity of an entry in an asset store: either a slot of the store's own
/// allocator, given by its packed bits, or a universally unique identifier.
#[derive(Clone, Copy, Debug, PartialEq, Eq, Structural, Hash)]
pub enum AssetKey {
    Index(u64),
    Uuid(u128),
}

/// Identity of an image asset, such as a glyph atlas texture.
#[derive(Clone, Copy, Debug, PartialEq, Eq, Structural, Hash)]
pub struct ImageId(pub AssetKey);

impl Default for ImageId {
    fn default() -> (id: Self)
        ensures
            id.0 == AssetKey::Uuid(DEFAULT_ASSET_UUID),
    {
        ImageId(AssetKey::Uuid(DEFAULT_ASSET_UUID))
    }
}

/// Identity of a mesh asset.
#[derive(Clone, Copy, Debug, PartialEq, Eq, Structural, Hash)]
pub struct MeshId(pub AssetKey);

impl Default for MeshId {
    fn default() -> (id: Self)
        ensures
            id.0 == AssetKey::Uuid(DEFAULT_ASSET_UUID),
    {
        MeshId(AssetKey::Uuid(DEFAULT_ASSET_UUID))
    }
}

/// Identity of a scene entity, as its packed bits.
#[derive(Clone, Copy, Debug, PartialEq, Eq, Structural, Hash)]
pub struct EntityId(pub u64);

} // verus!
