//! The orientation that a billboard is rendered with.

use crate::BillboardLockAxis;
use vstd::prelude::*;

verus! {

/// A vector of space, in the caller's scalar type.
#[derive(Clone, Copy, Debug, PartialEq)]
pub struct Vec3<S> {
    pub x: S,
    pub y: S,
    pub z: S,
}

/// A rotation as a quaternion, in the caller's scalar type.
#[derive(Clone, Copy, Debug, PartialEq)]
pub struct Quat<S> {
    pub x: S,
    pub y: S,
    pub z: S,
    pub w: S,
}

/// A transform split into translation, rotation and scale.
#[derive(Clone, Copy, Debug, PartialEq)]
pub struct Transform<S> {
    pub translation: Vec3<S>,
    pub rotation: Quat<S>,
    pub scale: Vec3<S>,
}

/// The three ways a billboard can be oriented.
#[derive(Clone, Copy, Debug, PartialEq, Eq, Structural)]
pub enum LockMode {
    /// The billboard faces the camera fully.
    Free,
    /// The billboard keeps its own yaw; the camera corrects pitch and roll.
    LockY,
    /// The billboard keeps its own rotation; the camera corrects nothing.
    LockRotation,
}

/// Where the rotation that a billboard is drawn with comes from.
#[derive(Clone, Copy, Debug, PartialEq)]
pub enum Facing<S> {
    /// The camera-facing rotation that all such billboards of a view share.
    Camera,
    /// The entity's yaw out of the given world rotation, camera-facing
    /// otherwise.
    CameraAboutY(Quat<S>),
    /// The given world rotation, as it is.
    Entity(Quat<S>),
}

/// What the renderer needs to place one billboard.
#[derive(Clone, Copy, Debug, PartialEq)]
pub struct BillboardUniform<S> {
    pub translation: Vec3<S>,
    pub scale: Vec3<S>,
    pub facing: Facing<S>,
}

/// The mode that an optional lock selects. A rotation lock overrides a Y axis
/// lock; a lock with neither flag set locks nothing.
pub open spec fn lock_mode(lock_axis: Option<BillboardLockAxis>) -> LockMode {
    match lock_axis {
        Some(lock) => if lock.rotation {
            LockMode::LockRotation
        } else if lock.y_axis {
            LockMode::LockY
        } else {
            LockMode::Free
        },
        None => LockMode::Free,
    }
}

/// The descriptor of a billboard with the given world transform and lock:
/// translation and scale pass through, and the entity's rotation enters only
/// where the lock keeps some of it.
pub open spec fn billboard_uniform<S>(
    global_transform: Transform<S>,
    lock_axis: Option<BillboardLockAxis>,
) -> BillboardUniform<S> {
    BillboardUniform {
        translation: global_transform.translation,
        scale: global_transform.scale,
        facing: match lock_mode(lock_axis) {
            LockMode::Free => Facing::Camera,
            LockMode::LockY => Facing::CameraAboutY(global_transform.rotation),
            LockMode::LockRotation => Facing::Entity(global_transform.rotation),
        },
    }
}

/// Computes the mode that an optional lock selects.
pub fn resolve_lock_mode(lock_axis: Option<BillboardLockAxis>) -> (mode: LockMode)
    ensures
        mode == lock_mode(lock_axis),
{
    match lock_axis {
        Some(lock) => {
            if lock.rotation {
                LockMode::LockRotation
            } else if lock.y_axis {
                LockMode::LockY
            } else {
                LockMode::Free
            }
        },
        None => LockMode::Free,
    }
}

/// Computes the orientation descriptor of a billboard from its world
/// transform and lock. The local transform does not enter the descriptor.
#[allow(unused_variables)]
pub fn calculate_billboard_uniform<S: Copy>(
    global_transform: &Transform<S>,
    transform: &Transform<S>,
    lock_axis: Option<BillboardLockAxis>,
) -> (uniform: BillboardUniform<S>)
    ensures
        uniform == billboard_uniform(*global_transform, lock_axis),
{
    let facing = match resolve_lock_mode(lock_axis) {
        LockMode::Free => Facing::Camera,
        LockMode::LockY => Facing::CameraAboutY(global_transform.rotation),
        LockMode::LockRotation => Facing::Entity(global_transform.rotation),
    };
    BillboardUniform {
        translation: global_transform.translation,
        scale: global_transform.scale,
        facing,
    }
}

/// With the rotation locked, the descriptor carries the entity's world
/// rotation unchanged, whatever the transform.
pub proof fn lemma_lock_rotation_keeps_world_rotation<S>(
    global_transform: Transform<S>,
    lock_axis: BillboardLockAxis,
)
    requires
        lock_axis.rotation,
    ensures
        billboard_uniform(global_transform, Some(lock_axis)).facing == Facing::Entity(
            global_transform.rotation,
        ),
{
}

/// Where nothing is locked, two transforms that differ only in rotation give
/// the same descriptor: the entity's own rotation plays no part.
pub proof fn lemma_free_ignores_rotation<S>(
    a: Transform<S>,
    b: Transform<S>,
    lock_axis: Option<BillboardLockAxis>,
)
    requires
        a.translation == b.translation,
        a.scale == b.scale,
        lock_mode(lock_axis) == LockMode::Free,
    ensures
        billboard_uniform(a, lock_axis) == billboard_uniform(b, lock_axis),
        billboard_uniform(a, lock_axis).facing == Facing::<S>::Camera,
{
}

} // verus!
