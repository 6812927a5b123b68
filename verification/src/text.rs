//! Billboard text as the renderer sees it: the mesh groups cached on a text
//! entity, and the records that a frame extracts from them.

use crate::asset::{AssetKey, EntityId, ImageId, MeshId, DEFAULT_ASSET_UUID};
use crate::orientation::{billboard_uniform, calculate_billboard_uniform, BillboardUniform, Transform};
use crate::{BillboardDepth, BillboardLockAxis};
use smallvec::SmallVec;
use vstd::prelude::*;

verus! {

/// The largest number of mesh groups one text entity may hold; it keeps the
/// growth of the list within what every address space can hold.
pub const MAX_GROUPS: usize = 0x0100_0000;

/// The box that text is laid out in; a missing side is unbounded.
#[derive(Clone, Copy, Debug, PartialEq)]
pub struct TextBounds<S> {
    pub width: Option<S>,
    pub height: Option<S>,
}

/// The bounds of a billboard text.
#[derive(Clone, Copy, Debug, PartialEq)]
pub struct BillboardTextBounds<S>(pub TextBounds<S>);

impl<S> Default for BillboardTextBounds<S> {
    /// Text is unbounded until bounds are set.
    fn default() -> (bounds: Self)
        ensures
            bounds.0.width.is_none(),
            bounds.0.height.is_none(),
    {
        BillboardTextBounds(TextBounds { width: None, height: None })
    }
}

/// One mesh group of a text entity: a generated mesh and the atlas texture
/// that its glyphs sample.
#[derive(Clone, Copy, Debug, PartialEq)]
pub struct BillboardTextHandleGroup {
    pub mesh: MeshId,
    pub image: ImageId,
}

impl Default for BillboardTextHandleGroup {
    fn default() -> (group: Self)
        ensures
            group.mesh.0 == AssetKey::Uuid(DEFAULT_ASSET_UUID),
            group.image.0 == AssetKey::Uuid(DEFAULT_ASSET_UUID),
    {
        BillboardTextHandleGroup { mesh: MeshId::default(), image: ImageId::default() }
    }
}

/// The mesh groups cached on a text entity, one per atlas texture that the
/// current layout samples. The list is a `SmallVec` with room for one group
/// in place, the common case of a single atlas.
#[verifier::external_body]
#[derive(Debug)]
pub struct BillboardTextHandles {
    groups: SmallVec<[BillboardTextHandleGroup; 1]>,
}

/// The groups that a list of mesh groups holds, in order.
pub uninterp spec fn handle_groups(handles: BillboardTextHandles) -> Seq<BillboardTextHandleGroup>;

/// `SmallVec::new`: the list it returns holds nothing.
#[verifier::external_body]
fn empty_groups() -> (handles: BillboardTextHandles)
    ensures
        handle_groups(handles) == Seq::<BillboardTextHandleGroup>::empty(),
{
    BillboardTextHandles { groups: SmallVec::new() }
}

/// `SmallVec::clear`: afterwards the list holds nothing.
#[verifier::external_body]
fn clear_groups(handles: &mut BillboardTextHandles)
    ensures
        handle_groups(*final(handles)) == Seq::<BillboardTextHandleGroup>::empty(),
{
    handles.groups.clear()
}

/// `SmallVec::push`: the group is appended behind those already held. The
/// bound keeps the list's growth away from a capacity overflow.
#[verifier::external_body]
fn push_group(handles: &mut BillboardTextHandles, group: BillboardTextHandleGroup)
    requires
        handle_groups(*old(handles)).len() < MAX_GROUPS,
    ensures
        handle_groups(*final(handles)) == handle_groups(*old(handles)).push(group),
{
    handles.groups.push(group)
}

/// `SmallVec::len`: the number of groups held.
#[verifier::external_body]
fn count_groups(handles: &BillboardTextHandles) -> (count: usize)
    ensures
        count == handle_groups(*handles).len(),
{
    handles.groups.len()
}

/// Indexing a `SmallVec`, which indexes the slice of its items: the group
/// at place `index`.
#[verifier::external_body]
fn group_at(handles: &BillboardTextHandles, index: usize) -> (group: BillboardTextHandleGroup)
    requires
        index < handle_groups(*handles).len(),
    ensures
        group == handle_groups(*handles)[index as int],
{
    handles.groups[index]
}

impl View for BillboardTextHandles {
    type V = Seq<BillboardTextHandleGroup>;

    open spec fn view(&self) -> Seq<BillboardTextHandleGroup> {
        handle_groups(*self)
    }
}

impl Default for BillboardTextHandles {
    fn default() -> (handles: Self)
        ensures
            handles@ == Seq::<BillboardTextHandleGroup>::empty(),
    {
        empty_groups()
    }
}

impl BillboardTextHandles {
    /// The number of groups held.
    pub fn len(&self) -> (count: usize)
        ensures
            count == self@.len(),
    {
        count_groups(self)
    }

    /// The group at place `index`, or nothing behind the last.
    pub fn get(&self, index: usize) -> (group: Option<BillboardTextHandleGroup>)
        ensures
            group == if index < self@.len() {
                Some(self@[index as int])
            } else {
                None
            },
    {
        if index < count_groups(self) {
            Some(group_at(self, index))
        } else {
            None
        }
    }

    /// Replaces the whole list by `groups`: nothing of the old list stays.
    pub fn replace(&mut self, groups: &Vec<BillboardTextHandleGroup>)
        requires
            groups.len() <= MAX_GROUPS,
        ensures
            final(self)@ == groups@,
    {
        clear_groups(self);
        let mut i: usize = 0;
        while i < groups.len()
            invariant
                i <= groups.len(),
                groups.len() <= MAX_GROUPS,
                self@ == groups@.take(i as int),
            decreases groups.len() - i,
        {
            push_group(self, groups[i]);
            proof {
                assert(groups@.take(i + 1) =~= groups@.take(i as int).push(groups@[i as int]));
            }
            i += 1;
        }
        proof {
            assert(groups@.take(i as int) =~= groups@);
        }
    }
}

/// What the renderer keeps of a billboard beside its geometry.
#[derive(Clone, Copy, Debug, PartialEq)]
pub struct RenderBillboard {
    pub depth: BillboardDepth,
    pub lock_axis: Option<BillboardLockAxis>,
}

/// One render record: how to draw one mesh with one texture at one
/// orientation, keyed by the render-side entity.
#[derive(Clone, Copy, Debug, PartialEq)]
pub struct RenderRecord<S> {
    pub entity: EntityId,
    pub uniform: BillboardUniform<S>,
    pub mesh: MeshId,
    pub image: ImageId,
    pub billboard: RenderBillboard,
}

/// A text billboard as a frame's snapshot of the scene shows it.
#[derive(Clone, Copy, Debug)]
pub struct TextBillboardItem<'a, S> {
    pub render_entity: EntityId,
    pub visible: bool,
    pub global_transform: Transform<S>,
    pub transform: Transform<S>,
    pub handles: &'a BillboardTextHandles,
    pub depth: BillboardDepth,
    pub lock_axis: Option<BillboardLockAxis>,
}

/// The record of one mesh group of a text billboard.
pub open spec fn text_record<'a, S>(
    item: TextBillboardItem<'a, S>,
    group: BillboardTextHandleGroup,
) -> RenderRecord<S> {
    RenderRecord {
        entity: item.render_entity,
        uniform: billboard_uniform(item.global_transform, item.lock_axis),
        mesh: group.mesh,
        image: group.image,
        billboard: RenderBillboard { depth: item.depth, lock_axis: item.lock_axis },
    }
}

/// The records of one text billboard: none while it is invisible, else one
/// per mesh group, in the order of the groups.
pub open spec fn text_item_records<'a, S>(item: TextBillboardItem<'a, S>) -> Seq<RenderRecord<S>> {
    if item.visible {
        Seq::new(item.handles@.len(), |j: int| text_record(item, item.handles@[j]))
    } else {
        Seq::empty()
    }
}

/// The batch of a frame: the records of every text billboard, in the order
/// of the snapshot.
pub open spec fn text_records<'a, S>(items: Seq<TextBillboardItem<'a, S>>) -> Seq<RenderRecord<S>>
    decreases items.len(),
{
    if items.len() == 0 {
        Seq::empty()
    } else {
        text_records(items.drop_last()) + text_item_records(items.last())
    }
}

/// Extracts the frame's render records of the text billboards. The scene is
/// only read; `previous_len` remembers the size of the batch for the next
/// frame's allocation.
pub fn extract_billboard_text<'a, S: Copy>(
    previous_len: &mut usize,
    items: &Vec<TextBillboardItem<'a, S>>,
) -> (batch: Vec<RenderRecord<S>>)
    ensures
        batch@ == text_records(items@),
        *final(previous_len) == batch@.len(),
{
    let mut batch: Vec<RenderRecord<S>> = Vec::with_capacity(*previous_len);
    let mut i: usize = 0;
    while i < items.len()
        invariant
            i <= items.len(),
            batch@ == text_records(items@.take(i as int)),
        decreases items.len() - i,
    {
        let item = &items[i];
        proof {
            assert(items@.take(i + 1).drop_last() =~= items@.take(i as int));
        }
        if item.visible {
            let uniform = calculate_billboard_uniform(
                &item.global_transform,
                &item.transform,
                item.lock_axis,
            );
            let count = item.handles.len();
            let ghost before = batch@;
            let mut j: usize = 0;
            while j < count
                invariant
                    j <= count,
                    count == item.handles@.len(),
                    item.visible,
                    uniform == billboard_uniform(item.global_transform, item.lock_axis),
                    batch@ == before + text_item_records(*item).take(j as int),
                decreases count - j,
            {
                let group = group_at(item.handles, j);
                batch.push(
                    RenderRecord {
                        entity: item.render_entity,
                        uniform,
                        mesh: group.mesh,
                        image: group.image,
                        billboard: RenderBillboard {
                            depth: item.depth,
                            lock_axis: item.lock_axis,
                        },
                    },
                );
                proof {
                    let all = text_item_records(*item);
                    assert(all.take(j + 1) =~= all.take(j as int).push(all[j as int]));
                    assert(batch@ =~= before + all.take(j + 1));
                }
                j += 1;
            }
            proof {
                let all = text_item_records(*item);
                assert(all.take(j as int) =~= all);
            }
        } else {
            proof {
                assert(batch@ + text_item_records(*item) =~= batch@);
            }
        }
        i += 1;
    }
    proof {
        assert(items@.take(i as int) =~= items@);
    }
    *previous_len = batch.len();
    batch
}

/// Every record of a frame comes from a visible billboard of the snapshot
/// and one of its mesh groups: an invisible one yields none, however many
/// groups it holds.
pub proof fn lemma_text_records_are_visible<'a, S>(
    items: Seq<TextBillboardItem<'a, S>>,
    record: RenderRecord<S>,
)
    requires
        text_records(items).contains(record),
    ensures
        exists|i: int, j: int|
            0 <= i < items.len() && (#[trigger] items[i]).visible && 0 <= j < items[i].handles@.len()
                && #[trigger] text_record(items[i], items[i].handles@[j]) == record,
    decreases items.len(),
{
    if items.len() > 0 {
        let before = text_records(items.drop_last());
        let own = text_item_records(items.last());
        let k = choose|k: int|
            0 <= k < text_records(items).len() && text_records(items)[k] == record;
        if k < before.len() {
            assert(before[k] == record);
            lemma_text_records_are_visible(items.drop_last(), record);
            let (i, j) = choose|i: int, j: int|
                0 <= i < items.drop_last().len() && (#[trigger] items.drop_last()[i]).visible && 0
                    <= j < items.drop_last()[i].handles@.len() && #[trigger] text_record(
                    items.drop_last()[i],
                    items.drop_last()[i].handles@[j],
                ) == record;
            assert(items[i].visible && text_record(items[i], items[i].handles@[j]) == record);
        } else {
            let i = items.len() - 1;
            let j = k - before.len();
            assert(own[j] == record);
            assert(items[i].visible && text_record(items[i], items[i].handles@[j]) == record);
        }
    }
}

/// A snapshot in which no billboard is visible yields an empty batch.
pub proof fn lemma_invisible_text_yields_nothing<'a, S>(items: Seq<TextBillboardItem<'a, S>>)
    requires
        forall|i: int| 0 <= i < items.len() ==> !(#[trigger] items[i]).visible,
    ensures
        text_records(items) == Seq::<RenderRecord<S>>::empty(),
    decreases items.len(),
{
    if items.len() > 0 {
        assert forall|i: int| 0 <= i < items.drop_last().len() implies !(#[trigger] items.drop_last()[i]).visible by {
            assert(items.drop_last()[i] == items[i]);
        }
        lemma_invisible_text_yields_nothing(items.drop_last());
        assert(!items[items.len() - 1].visible);
        assert(text_records(items) =~= Seq::<RenderRecord<S>>::empty());
    }
}

/// All records of one text billboard carry the same render entity: a
/// consumer that keeps one record per entity keeps only the last of a text
/// that spans several atlas textures.
pub proof fn lemma_groups_share_one_entity<'a, S>(item: TextBillboardItem<'a, S>, j: int, k: int)
    requires
        item.visible,
        0 <= j < item.handles@.len(),
        0 <= k < item.handles@.len(),
    ensures
        text_item_records(item).len() == item.handles@.len(),
        text_item_records(item)[j].entity == item.render_entity,
        text_item_records(item)[j].entity == text_item_records(item)[k].entity,
{
}

} // verus!
