//! The decisions of a text layout pass: which entities are rebuilt, with
//! which bounds, and what follows from the outcome of shaping.

use crate::asset::EntityId;
use crate::mesh::{
    build_text_meshes, mesh_views, spans_in_range, text_meshes, GlyphQuad, TextMesh, MAX_GLYPHS,
};
use crate::text::{BillboardTextBounds, TextBounds};
use bevy::utils::HashSet;
use vstd::prelude::*;

verus! {

/// How text is broken into lines.
#[derive(Clone, Copy, Debug, PartialEq, Eq, Structural)]
pub enum LineBreak {
    WordBoundary,
    AnyCharacter,
    WordOrCharacter,
    NoWrap,
}

/// What changed on a text entity since its last layout pass.
#[derive(Clone, Copy, Debug, PartialEq)]
pub struct LayoutChanges {
    /// The text or a color of the entity or of one of its spans changed.
    pub text_needs_rerender: bool,
    pub layout_changed: bool,
    pub bounds_changed: bool,
    pub anchor_changed: bool,
    /// The computed layout itself asks for a new pass.
    pub computed_needs_rerender: bool,
}

impl LayoutChanges {
    /// Whether any of the changes is set.
    pub open spec fn any(self) -> bool {
        self.text_needs_rerender || self.layout_changed || self.bounds_changed
            || self.anchor_changed || self.computed_needs_rerender
    }

    /// Computes whether any of the changes is set.
    pub fn is_any(&self) -> (any: bool)
        ensures
            any == self.any(),
    {
        self.text_needs_rerender || self.layout_changed || self.bounds_changed
            || self.anchor_changed || self.computed_needs_rerender
    }
}

/// Why shaping a text failed.
#[derive(Clone, Copy, Debug, PartialEq, Eq, Structural)]
pub enum ShapingError {
    /// A font that the text names is not loaded, or not yet.
    NoSuchFont,
    /// A glyph could not be added to its atlas.
    FailedToAddGlyph,
    /// A glyph could not be rasterized.
    FailedToGetGlyphImage,
}

/// The text entities whose font was missing at their last pass, as a hash
/// set of their packed bits.
#[verifier::external_body]
#[derive(Debug)]
pub struct RetryQueue {
    entities: HashSet<u64>,
}

/// The entities that a retry queue holds.
pub uninterp spec fn queued(queue: RetryQueue) -> Set<u64>;

/// `HashSet::default`: the set it returns holds nothing.
#[verifier::external_body]
fn empty_queue() -> (queue: RetryQueue)
    ensures
        queued(queue) == Set::<u64>::empty(),
{
    RetryQueue { entities: HashSet::default() }
}

/// `HashSet::insert`: afterwards the set holds the value beside what it held.
#[verifier::external_body]
fn queue_insert(queue: &mut RetryQueue, entity: u64)
    ensures
        queued(*final(queue)) == queued(*old(queue)).insert(entity),
{
    queue.entities.insert(entity);
}

/// `HashSet::remove`: tells whether the set held the value, and afterwards
/// the set holds the rest.
#[verifier::external_body]
fn queue_remove(queue: &mut RetryQueue, entity: u64) -> (held: bool)
    ensures
        held == queued(*old(queue)).contains(entity),
        queued(*final(queue)) == queued(*old(queue)).remove(entity),
{
    queue.entities.remove(&entity)
}

impl View for RetryQueue {
    type V = Set<u64>;

    open spec fn view(&self) -> Set<u64> {
        queued(*self)
    }
}

impl Default for RetryQueue {
    fn default() -> (queue: Self)
        ensures
            queue@ == Set::<u64>::empty(),
    {
        empty_queue()
    }
}

/// Whether a pass rebuilds the entity: something changed, or it waits for a
/// font.
pub open spec fn pass_rebuilds(queue: Set<u64>, entity: EntityId, changes: LayoutChanges) -> bool {
    changes.any() || queue.contains(entity.0)
}

/// The queue after a pass has looked at the entity: the entity leaves it
/// only where nothing else asked for the rebuild.
pub open spec fn queue_after_visit(
    queue: Set<u64>,
    entity: EntityId,
    changes: LayoutChanges,
) -> Set<u64> {
    if changes.any() {
        queue
    } else {
        queue.remove(entity.0)
    }
}

/// The queue after shaping: a missing font puts the entity on it.
pub open spec fn queue_after_shaping(
    queue: Set<u64>,
    entity: EntityId,
    error: Option<ShapingError>,
) -> Set<u64> {
    if error == Some(ShapingError::NoSuchFont) {
        queue.insert(entity.0)
    } else {
        queue
    }
}

/// The bounds that shaping is run with: none where the text does not wrap.
pub open spec fn bounds_for_shaping<S>(
    linebreak: LineBreak,
    bounds: BillboardTextBounds<S>,
) -> TextBounds<S> {
    if linebreak == LineBreak::NoWrap {
        TextBounds { width: None, height: None }
    } else {
        bounds.0
    }
}

/// Opens the pass for one entity: tells whether it is rebuilt, and takes it
/// off the retry queue where only the queue asked for the rebuild.
pub fn begin_layout_pass(queue: &mut RetryQueue, entity: EntityId, changes: LayoutChanges) -> (rebuild:
    bool)
    ensures
        rebuild == pass_rebuilds(old(queue)@, entity, changes),
        final(queue)@ == queue_after_visit(old(queue)@, entity, changes),
{
    if changes.is_any() {
        true
    } else {
        let held = queue_remove(queue, entity.0);
        proof {
            if !held {
                assert(old(queue)@.remove(entity.0) =~= old(queue)@);
            }
        }
        held
    }
}

/// Chooses the bounds that shaping is run with.
pub fn effective_bounds<S: Copy>(linebreak: LineBreak, bounds: &BillboardTextBounds<S>) -> (shaping:
    TextBounds<S>)
    ensures
        shaping == bounds_for_shaping(linebreak, *bounds),
{
    if linebreak == LineBreak::NoWrap {
        TextBounds { width: None, height: None }
    } else {
        bounds.0
    }
}

/// What shaping handed back for one entity: its glyphs as aligned quads, and
/// the color of each span.
#[derive(Debug, PartialEq)]
pub struct ShapedText<S, C> {
    pub glyphs: Vec<GlyphQuad<S>>,
    pub span_colors: Vec<C>,
}

/// What a layout pass decided for one entity.
#[derive(Debug, PartialEq)]
pub enum LayoutUpdate<S, C> {
    /// The font is missing: nothing changes, and the entity is tried again
    /// on the next pass.
    Retry,
    /// The text was rebuilt: these meshes replace the entity's mesh groups,
    /// and the entity is no longer dirty.
    Rebuilt(Vec<TextMesh<S, C>>),
    /// Shaping failed for good: the pipeline must stop, no geometry is given.
    Fatal(ShapingError),
}

/// The error of a shaping outcome, if it is one.
pub open spec fn shaping_error<S, C>(outcome: Result<ShapedText<S, C>, ShapingError>) -> Option<
    ShapingError,
> {
    match outcome {
        Ok(_) => None,
        Err(error) => Some(error),
    }
}

/// Whether the glyphs of a shaped text can be turned into meshes: they fit
/// the index buffers and every span has a color.
pub open spec fn shaped_text_is_valid<S, C>(shaped: ShapedText<S, C>) -> bool {
    shaped.glyphs.len() <= MAX_GLYPHS && spans_in_range(
        shaped.glyphs@,
        shaped.span_colors@.len(),
    )
}

/// Finishes the pass for one entity from the outcome of shaping: a missing
/// font queues the entity for the next pass, any other error is fatal, and
/// shaped text becomes the entity's new mesh groups.
pub fn update_billboard_text_layout<S: Copy, C: Copy>(
    queue: &mut RetryQueue,
    entity: EntityId,
    outcome: Result<ShapedText<S, C>, ShapingError>,
) -> (update: LayoutUpdate<S, C>)
    requires
        outcome matches Ok(shaped) ==> shaped_text_is_valid(shaped),
    ensures
        final(queue)@ == queue_after_shaping(old(queue)@, entity, shaping_error(outcome)),
        match outcome {
            Ok(shaped) => update matches LayoutUpdate::Rebuilt(meshes) && mesh_views(meshes@)
                == text_meshes(shaped.glyphs@, shaped.span_colors@),
            Err(ShapingError::NoSuchFont) => update is Retry,
            Err(error) => update matches LayoutUpdate::Fatal(reason) && reason == error,
        },
{
    match outcome {
        Ok(shaped) => LayoutUpdate::Rebuilt(build_text_meshes(&shaped.glyphs, &shaped.span_colors)),
        Err(ShapingError::NoSuchFont) => {
            queue_insert(queue, entity.0);
            LayoutUpdate::Retry
        },
        Err(error) => LayoutUpdate::Fatal(error),
    }
}

/// An entity whose font is missing is on the queue after its pass, whatever
/// the queue held and whatever had changed, and every later pass rebuilds it
/// until shaping succeeds.
pub proof fn lemma_missing_font_is_retried(
    queue: Set<u64>,
    entity: EntityId,
    changes: LayoutChanges,
    later: LayoutChanges,
)
    ensures
        queue_after_shaping(
            queue_after_visit(queue, entity, changes),
            entity,
            Some(ShapingError::NoSuchFont),
        ).contains(entity.0),
        pass_rebuilds(
            queue_after_shaping(
                queue_after_visit(queue, entity, changes),
                entity,
                Some(ShapingError::NoSuchFont),
            ),
            entity,
            later,
        ),
{
}

} // verus!
