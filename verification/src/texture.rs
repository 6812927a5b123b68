//! Textured billboards as a frame extracts them.

use crate::asset::EntityId;
use crate::orientation::{billboard_uniform, calculate_billboard_uniform, Transform};
use crate::text::{RenderBillboard, RenderRecord};
use crate::{BillboardDepth, BillboardLockAxis, BillboardMesh, BillboardTexture};
use vstd::prelude::*;

verus! {

/// A textured billboard as a frame's snapshot of the scene shows it.
#[derive(Clone, Copy, Debug, PartialEq)]
pub struct TexturedBillboardItem<S> {
    pub render_entity: EntityId,
    pub visible: bool,
    pub global_transform: Transform<S>,
    pub transform: Transform<S>,
    pub mesh: BillboardMesh,
    pub texture: BillboardTexture,
    pub depth: BillboardDepth,
    pub lock_axis: Option<BillboardLockAxis>,
}

/// The record of a textured billboard.
pub open spec fn texture_record<S>(item: TexturedBillboardItem<S>) -> RenderRecord<S> {
    RenderRecord {
        entity: item.render_entity,
        uniform: billboard_uniform(item.global_transform, item.lock_axis),
        mesh: item.mesh.0,
        image: item.texture.0,
        billboard: RenderBillboard { depth: item.depth, lock_axis: item.lock_axis },
    }
}

/// The batch of a frame: one record for every visible textured billboard, in
/// the order of the snapshot.
pub open spec fn texture_records<S>(items: Seq<TexturedBillboardItem<S>>) -> Seq<RenderRecord<S>>
    decreases items.len(),
{
    if items.len() == 0 {
        Seq::empty()
    } else if items.last().visible {
        texture_records(items.drop_last()).push(texture_record(items.last()))
    } else {
        texture_records(items.drop_last())
    }
}

/// Extracts the frame's render records of the textured billboards. The scene
/// is only read; `previous_len` remembers the size of the batch for the next
/// frame's allocation.
pub fn extract_billboard_texture<S: Copy>(
    previous_len: &mut usize,
    items: &Vec<TexturedBillboardItem<S>>,
) -> (batch: Vec<RenderRecord<S>>)
    ensures
        batch@ == texture_records(items@),
        *final(previous_len) == batch@.len(),
{
    let mut batch: Vec<RenderRecord<S>> = Vec::with_capacity(*previous_len);
    let mut i: usize = 0;
    while i < items.len()
        invariant
            i <= items.len(),
            batch@ == texture_records(items@.take(i as int)),
        decreases items.len() - i,
    {
        let item = &items[i];
        proof {
            assert(items@.take(i + 1).drop_last() =~= items@.take(i as int));
        }
        if item.visible {
            let uniform = calculate_billboard_uniform(
                &item.global_transform,
                &item.transform,
                item.lock_axis,
            );
            batch.push(
                RenderRecord {
                    entity: item.render_entity,
                    uniform,
                    mesh: item.mesh.0,
                    image: item.texture.0,
                    billboard: RenderBillboard { depth: item.depth, lock_axis: item.lock_axis },
                },
            );
        }
        i += 1;
    }
    proof {
        assert(items@.take(i as int) =~= items@);
    }
    *previous_len = batch.len();
    batch
}

/// Every record of a frame comes from a visible billboard of the snapshot:
/// an invisible one yields none.
pub proof fn lemma_texture_records_are_visible<S>(
    items: Seq<TexturedBillboardItem<S>>,
    record: RenderRecord<S>,
)
    requires
        texture_records(items).contains(record),
    ensures
        exists|i: int|
            0 <= i < items.len() && (#[trigger] items[i]).visible && texture_record(items[i])
                == record,
    decreases items.len(),
{
    if items.len() > 0 {
        let before = texture_records(items.drop_last());
        if items.last().visible && texture_record(items.last()) == record {
            assert(items[items.len() - 1].visible);
        } else {
            assert(before.contains(record)) by {
                let k = choose|k: int|
                    0 <= k < texture_records(items).len() && texture_records(items)[k] == record;
                if items.last().visible {
                    assert(k < before.len());
                    assert(before[k] == record);
                }
            }
            lemma_texture_records_are_visible(items.drop_last(), record);
            let i = choose|i: int|
                0 <= i < items.drop_last().len() && (#[trigger] items.drop_last()[i]).visible
                    && texture_record(items.drop_last()[i]) == record;
            assert(items[i].visible);
        }
    }
}

} // verus!
