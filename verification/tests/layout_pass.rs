use bevy_mod_billboard::asset::{AssetKey, EntityId, ImageId};
use bevy_mod_billboard::layout::{
    begin_layout_pass, effective_bounds, update_billboard_text_layout, LayoutChanges,
    LayoutUpdate, LineBreak, RetryQueue, ShapedText, ShapingError,
};
use bevy_mod_billboard::mesh::{GlyphQuad, Point};
use bevy_mod_billboard::text::{BillboardTextBounds, TextBounds};

fn unchanged() -> LayoutChanges {
    LayoutChanges {
        text_needs_rerender: false,
        layout_changed: false,
        bounds_changed: false,
        anchor_changed: false,
        computed_needs_rerender: false,
    }
}

fn shaped() -> ShapedText<f32, u8> {
    let quad = GlyphQuad {
        texture: ImageId(AssetKey::Index(1)),
        span_index: 0,
        top_left: Point { x: 0.0, y: 0.0 },
        bottom_right: Point { x: 1.0, y: 1.0 },
        uv_min: Point { x: 0.0, y: 0.0 },
        uv_max: Point { x: 0.5, y: 0.5 },
    };
    ShapedText { glyphs: vec![quad], span_colors: vec![3] }
}

#[test]
fn unchanged_text_is_not_rebuilt() {
    let mut queue = RetryQueue::default();
    assert!(!begin_layout_pass(&mut queue, EntityId(1), unchanged()));
}

#[test]
fn each_change_alone_asks_for_a_rebuild() {
    let mut queue = RetryQueue::default();
    let e = EntityId(1);
    assert!(begin_layout_pass(&mut queue, e, LayoutChanges { text_needs_rerender: true, ..unchanged() }));
    assert!(begin_layout_pass(&mut queue, e, LayoutChanges { layout_changed: true, ..unchanged() }));
    assert!(begin_layout_pass(&mut queue, e, LayoutChanges { bounds_changed: true, ..unchanged() }));
    assert!(begin_layout_pass(&mut queue, e, LayoutChanges { anchor_changed: true, ..unchanged() }));
    assert!(begin_layout_pass(&mut queue, e, LayoutChanges { computed_needs_rerender: true, ..unchanged() }));
    assert!(!begin_layout_pass(&mut queue, e, unchanged()));
}

#[test]
fn missing_font_is_retried_until_it_loads() {
    let mut queue = RetryQueue::default();
    let e = EntityId(7);
    let changed = LayoutChanges { text_needs_rerender: true, ..unchanged() };
    assert!(begin_layout_pass(&mut queue, e, changed));
    let update = update_billboard_text_layout::<f32, u8>(&mut queue, e, Err(ShapingError::NoSuchFont));
    assert_eq!(update, LayoutUpdate::Retry);
    // Nothing changed since, yet the entity is tried again; the font is still missing.
    assert!(begin_layout_pass(&mut queue, e, unchanged()));
    let update = update_billboard_text_layout::<f32, u8>(&mut queue, e, Err(ShapingError::NoSuchFont));
    assert_eq!(update, LayoutUpdate::Retry);
    // Another entity is not affected.
    assert!(!begin_layout_pass(&mut queue, EntityId(8), unchanged()));
    // The font has loaded.
    assert!(begin_layout_pass(&mut queue, e, unchanged()));
    match update_billboard_text_layout(&mut queue, e, Ok(shaped())) {
        LayoutUpdate::Rebuilt(meshes) => {
            assert_eq!(meshes.len(), 1);
            assert_eq!(meshes[0].colors, vec![3, 3, 3, 3]);
            assert_eq!(meshes[0].indices, vec![0, 2, 1, 0, 3, 2]);
        }
        other => panic!("expected new meshes, got {:?}", other),
    }
    assert!(!begin_layout_pass(&mut queue, e, unchanged()));
}

#[test]
fn a_changed_entity_stays_on_the_queue_for_one_more_pass() {
    let mut queue = RetryQueue::default();
    let e = EntityId(5);
    assert!(begin_layout_pass(&mut queue, e, LayoutChanges { anchor_changed: true, ..unchanged() }));
    assert_eq!(
        update_billboard_text_layout::<f32, u8>(&mut queue, e, Err(ShapingError::NoSuchFont)),
        LayoutUpdate::Retry
    );
    // The change, not the queue, asks for this pass: the entry is left alone.
    assert!(begin_layout_pass(&mut queue, e, LayoutChanges { layout_changed: true, ..unchanged() }));
    assert!(matches!(
        update_billboard_text_layout(&mut queue, e, Ok(shaped())),
        LayoutUpdate::Rebuilt(_)
    ));
    assert!(begin_layout_pass(&mut queue, e, unchanged()));
    assert!(!begin_layout_pass(&mut queue, e, unchanged()));
}

#[test]
fn other_shaping_errors_are_fatal() {
    let mut queue = RetryQueue::default();
    let e = EntityId(2);
    assert_eq!(
        update_billboard_text_layout::<f32, u8>(&mut queue, e, Err(ShapingError::FailedToAddGlyph)),
        LayoutUpdate::Fatal(ShapingError::FailedToAddGlyph)
    );
    assert_eq!(
        update_billboard_text_layout::<f32, u8>(&mut queue, e, Err(ShapingError::FailedToGetGlyphImage)),
        LayoutUpdate::Fatal(ShapingError::FailedToGetGlyphImage)
    );
    // A fatal error queues nothing.
    assert!(!begin_layout_pass(&mut queue, e, unchanged()));
}

#[test]
fn text_that_does_not_wrap_is_shaped_without_bounds() {
    let bounds = BillboardTextBounds(TextBounds { width: Some(120.0f32), height: None });
    let unbounded = TextBounds { width: None, height: None };
    assert_eq!(effective_bounds(LineBreak::NoWrap, &bounds), unbounded);
    assert_eq!(effective_bounds(LineBreak::WordBoundary, &bounds), bounds.0);
    assert_eq!(effective_bounds(LineBreak::AnyCharacter, &bounds), bounds.0);
    assert_eq!(effective_bounds(LineBreak::WordOrCharacter, &bounds), bounds.0);
}
