//! Billboards: text and textured quads that turn to face the viewer.
//!
//! The crate holds the per-frame decisions of a billboard renderer on plain
//! values: which orientation a billboard is drawn with, which text needs new
//! geometry, how shaped glyphs become triangle meshes grouped by atlas
//! texture, and which render records a frame publishes.

use vstd::prelude::*;

pub mod asset;
pub mod layout;
pub mod mesh;
pub mod orientation;
pub mod prelude;
pub mod text;
pub mod texture;
pub mod tracker;

use crate::asset::{AssetKey, ImageId, MeshId, DEFAULT_ASSET_UUID};
use vstd::std_specs::convert::FromSpecImpl;

verus! {

/// A billboarded texture: the image that the quad shows.
#[derive(Clone, Copy, Debug, PartialEq)]
pub struct BillboardTexture(pub ImageId);

impl Default for BillboardTexture {
    fn default() -> (texture: Self)
        ensures
            texture.0.0 == AssetKey::Uuid(DEFAULT_ASSET_UUID),
    {
        BillboardTexture(ImageId::default())
    }
}

/// The mesh that a textured billboard is drawn with.
#[derive(Clone, Copy, Debug, PartialEq)]
pub struct BillboardMesh(pub MeshId);

impl Default for BillboardMesh {
    fn default() -> (mesh: Self)
        ensures
            mesh.0.0 == AssetKey::Uuid(DEFAULT_ASSET_UUID),
    {
        BillboardMesh(MeshId::default())
    }
}

/// Billboarded text: the string of the root span.
#[derive(Clone, Debug, PartialEq)]
pub struct BillboardText(pub String);

impl Default for BillboardText {
    fn default() -> (text: Self)
        ensures
            text.0@ == Seq::<char>::empty(),
    {
        BillboardText(String::new())
    }
}

impl BillboardText {
    /// Billboard text holding a copy of `value`.
    pub fn new(value: &str) -> (text: Self)
        ensures
            text.0@ == value@,
    {
        BillboardText(value.to_owned())
    }

    /// The text of the root span.
    pub fn read_span(&self) -> (span: &str)
        ensures
            span@ == self.0@,
    {
        self.0.as_str()
    }

    /// The text of the root span, to be written.
    pub fn write_span(&mut self) -> (span: &mut String)
        ensures
            *span == old(self).0,
            final(self).0 == *final(span),
    {
        &mut self.0
    }
}

impl<'a> From<&'a str> for BillboardText {
    fn from(value: &'a str) -> (text: Self)
        ensures
            text.0@ == value@,
    {
        BillboardText(value.to_owned())
    }
}

/// Ghost code cannot build a string; the contract of `from` states the result
/// instead.
impl<'a> FromSpecImpl<&'a str> for BillboardText {
    open spec fn obeys_from_spec() -> bool {
        false
    }

    open spec fn from_spec(value: &'a str) -> Self {
        arbitrary()
    }
}

impl From<String> for BillboardText {
    fn from(value: String) -> (text: Self) {
        BillboardText(value)
    }
}

impl FromSpecImpl<String> for BillboardText {
    open spec fn obeys_from_spec() -> bool {
        true
    }

    open spec fn from_spec(value: String) -> Self {
        BillboardText(value)
    }
}

/// Whether a billboard takes part in depth testing.
#[derive(Clone, Copy, Debug, PartialEq)]
pub struct BillboardDepth(pub bool);

impl Default for BillboardDepth {
    fn default() -> (depth: Self)
        ensures
            depth.0,
    {
        BillboardDepth(true)
    }
}

/// Marks an entity as a billboard.
#[derive(Clone, Copy, Debug, PartialEq)]
pub struct Billboard;

impl Default for Billboard {
    fn default() -> Self {
        Billboard
    }
}

/// Which rotational freedom the camera-facing logic must leave to the entity.
#[derive(Clone, Copy, Debug, PartialEq)]
pub struct BillboardLockAxis {
    pub y_axis: bool,
    pub rotation: bool,
}

impl Default for BillboardLockAxis {
    fn default() -> (lock: Self)
        ensures
            !lock.y_axis,
            !lock.rotation,
    {
        BillboardLockAxis { y_axis: false, rotation: false }
    }
}

impl BillboardLockAxis {
    /// No axis locked.
    pub fn new() -> (lock: Self)
        ensures
            lock == (BillboardLockAxis { y_axis: false, rotation: false }),
    {
        BillboardLockAxis { y_axis: false, rotation: false }
    }

    /// Only the Y axis lock set as given.
    pub fn from_lock_y(y_axis: bool) -> (lock: Self)
        ensures
            lock == (BillboardLockAxis { y_axis, rotation: false }),
    {
        BillboardLockAxis { y_axis, rotation: false }
    }

    /// Only the rotation lock set as given.
    pub fn from_lock_rotation(rotation: bool) -> (lock: Self)
        ensures
            lock == (BillboardLockAxis { y_axis: false, rotation }),
    {
        BillboardLockAxis { y_axis: false, rotation }
    }

    /// The same lock with the Y axis lock replaced.
    pub fn with_lock_y(self, y_axis: bool) -> (lock: Self)
        ensures
            lock == (BillboardLockAxis { y_axis, rotation: self.rotation }),
    {
        BillboardLockAxis { y_axis, rotation: self.rotation }
    }

    /// The same lock with the rotation lock replaced.
    pub fn with_lock_rotation(self, rotation: bool) -> (lock: Self)
        ensures
            lock == (BillboardLockAxis { y_axis: self.y_axis, rotation }),
    {
        BillboardLockAxis { y_axis: self.y_axis, rotation }
    }
}

} // verus!
