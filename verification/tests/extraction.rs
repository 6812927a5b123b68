use bevy_mod_billboard::asset::{AssetKey, EntityId, ImageId, MeshId};
use bevy_mod_billboard::orientation::{
    calculate_billboard_uniform, resolve_lock_mode, BillboardUniform, Facing, LockMode, Quat,
    Transform, Vec3,
};
use bevy_mod_billboard::text::{
    extract_billboard_text, BillboardTextHandleGroup, BillboardTextHandles, RenderBillboard,
    RenderRecord, TextBillboardItem,
};
use bevy_mod_billboard::texture::{extract_billboard_texture, TexturedBillboardItem};
use bevy_mod_billboard::{BillboardDepth, BillboardLockAxis, BillboardMesh, BillboardTexture};

fn world(angle: f32) -> Transform<f32> {
    Transform {
        translation: Vec3 { x: 1.0, y: 2.0, z: 3.0 },
        rotation: Quat { x: 0.0, y: angle, z: 0.0, w: 1.0 - angle },
        scale: Vec3 { x: 2.0, y: 2.0, z: 2.0 },
    }
}

fn local() -> Transform<f32> {
    Transform {
        translation: Vec3 { x: 0.5, y: 0.0, z: 0.0 },
        rotation: Quat { x: 0.0, y: 0.0, z: 0.0, w: 1.0 },
        scale: Vec3 { x: 1.0, y: 1.0, z: 1.0 },
    }
}

fn group(n: u64) -> BillboardTextHandleGroup {
    BillboardTextHandleGroup { mesh: MeshId(AssetKey::Index(n)), image: ImageId(AssetKey::Index(100 + n)) }
}

fn handles(groups: &[BillboardTextHandleGroup]) -> BillboardTextHandles {
    let mut handles = BillboardTextHandles::default();
    handles.replace(&groups.to_vec());
    handles
}

fn text_item(entity: u64, visible: bool, handles: &BillboardTextHandles) -> TextBillboardItem<'_, f32> {
    TextBillboardItem {
        render_entity: EntityId(entity),
        visible,
        global_transform: world(0.25),
        transform: local(),
        handles,
        depth: BillboardDepth(true),
        lock_axis: None,
    }
}

fn texture_item(entity: u64, visible: bool, lock_axis: Option<BillboardLockAxis>) -> TexturedBillboardItem<f32> {
    TexturedBillboardItem {
        render_entity: EntityId(entity),
        visible,
        global_transform: world(0.5),
        transform: local(),
        mesh: BillboardMesh(MeshId(AssetKey::Index(entity))),
        texture: BillboardTexture(ImageId(AssetKey::Uuid(entity as u128))),
        depth: BillboardDepth(false),
        lock_axis,
    }
}

#[test]
fn lock_rotation_keeps_the_world_rotation() {
    let lock = BillboardLockAxis::from_lock_rotation(true);
    for angle in [0.0f32, 0.125, 0.75] {
        let uniform = calculate_billboard_uniform(&world(angle), &local(), Some(lock));
        assert_eq!(uniform.facing, Facing::Entity(world(angle).rotation));
        assert_eq!(uniform.translation, Vec3 { x: 1.0, y: 2.0, z: 3.0 });
        assert_eq!(uniform.scale, Vec3 { x: 2.0, y: 2.0, z: 2.0 });
    }
}

#[test]
fn free_billboard_ignores_the_rotation_of_the_entity() {
    let a = calculate_billboard_uniform(&world(0.0), &local(), None);
    let b = calculate_billboard_uniform(&world(0.5), &local(), None);
    assert_eq!(a, b);
    assert_eq!(
        a,
        BillboardUniform {
            translation: Vec3 { x: 1.0, y: 2.0, z: 3.0 },
            scale: Vec3 { x: 2.0, y: 2.0, z: 2.0 },
            facing: Facing::Camera,
        }
    );
    let unlocked = calculate_billboard_uniform(&world(0.5), &local(), Some(BillboardLockAxis::new()));
    assert_eq!(unlocked, a);
}

#[test]
fn lock_y_keeps_the_rotation_for_its_yaw() {
    let lock = BillboardLockAxis::from_lock_y(true);
    let uniform = calculate_billboard_uniform(&world(0.5), &local(), Some(lock));
    assert_eq!(uniform.facing, Facing::CameraAboutY(world(0.5).rotation));
}

#[test]
fn lock_modes_are_resolved_from_the_flags() {
    assert_eq!(resolve_lock_mode(None), LockMode::Free);
    assert_eq!(resolve_lock_mode(Some(BillboardLockAxis::new())), LockMode::Free);
    assert_eq!(resolve_lock_mode(Some(BillboardLockAxis::from_lock_y(true))), LockMode::LockY);
    assert_eq!(
        resolve_lock_mode(Some(BillboardLockAxis::from_lock_rotation(true))),
        LockMode::LockRotation
    );
    assert_eq!(
        resolve_lock_mode(Some(BillboardLockAxis::from_lock_y(true).with_lock_rotation(true))),
        LockMode::LockRotation
    );
}

#[test]
fn invisible_billboards_yield_no_record() {
    let mut previous_len = 5usize;
    let three = handles(&[group(1), group(2), group(3)]);
    let none = handles(&[]);
    let texts = vec![text_item(1, false, &three), text_item(2, false, &none)];
    assert!(extract_billboard_text(&mut previous_len, &texts).is_empty());
    assert_eq!(previous_len, 0);
    let mut previous_len = 5usize;
    let textures = vec![texture_item(1, false, None), texture_item(2, false, None)];
    assert!(extract_billboard_texture(&mut previous_len, &textures).is_empty());
    assert_eq!(previous_len, 0);
}

#[test]
fn visible_text_yields_one_record_per_mesh_group() {
    let mut previous_len = 0usize;
    let two = handles(&[group(1), group(2)]);
    let hidden = handles(&[group(3)]);
    let none = handles(&[]);
    let one = handles(&[group(4)]);
    let items = vec![
        text_item(1, true, &two),
        text_item(2, false, &hidden),
        text_item(3, true, &none),
        text_item(4, true, &one),
    ];
    let batch = extract_billboard_text(&mut previous_len, &items);
    assert_eq!(previous_len, 3);
    let uniform = calculate_billboard_uniform(&world(0.25), &local(), None);
    let record = |entity: u64, g: BillboardTextHandleGroup| RenderRecord {
        entity: EntityId(entity),
        uniform,
        mesh: g.mesh,
        image: g.image,
        billboard: RenderBillboard { depth: BillboardDepth(true), lock_axis: None },
    };
    assert_eq!(batch, vec![record(1, group(1)), record(1, group(2)), record(4, group(4))]);
}

#[test]
fn visible_textures_yield_one_record_each() {
    let mut previous_len = 0usize;
    let lock = BillboardLockAxis::from_lock_rotation(true);
    let items = vec![
        texture_item(1, true, None),
        texture_item(2, false, None),
        texture_item(3, true, Some(lock)),
    ];
    let batch = extract_billboard_texture(&mut previous_len, &items);
    assert_eq!(previous_len, 2);
    assert_eq!(batch.len(), 2);
    assert_eq!(batch[0].entity, EntityId(1));
    assert_eq!(batch[0].mesh, MeshId(AssetKey::Index(1)));
    assert_eq!(batch[0].image, ImageId(AssetKey::Uuid(1)));
    assert_eq!(batch[0].uniform.facing, Facing::Camera);
    assert_eq!(batch[0].billboard, RenderBillboard { depth: BillboardDepth(false), lock_axis: None });
    assert_eq!(batch[1].entity, EntityId(3));
    assert_eq!(batch[1].uniform.facing, Facing::Entity(world(0.5).rotation));
    assert_eq!(batch[1].billboard.lock_axis, Some(lock));
}

#[test]
fn handles_are_replaced_wholesale() {
    let mut handles = BillboardTextHandles::default();
    assert_eq!(handles.len(), 0);
    assert_eq!(handles.get(0), None);
    handles.replace(&vec![group(1), group(2), group(3)]);
    assert_eq!(handles.len(), 3);
    assert_eq!(handles.get(0), Some(group(1)));
    assert_eq!(handles.get(2), Some(group(3)));
    assert_eq!(handles.get(3), None);
    handles.replace(&vec![group(9)]);
    assert_eq!(handles.len(), 1);
    assert_eq!(handles.get(0), Some(group(9)));
    assert_eq!(handles.get(1), None);
    handles.replace(&Vec::new());
    assert_eq!(handles.len(), 0);
}
