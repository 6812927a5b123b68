use bevy::color::{Color, ColorToComponents};
use bevy_mod_billboard::asset::{AssetKey, ImageId};
use bevy_mod_billboard::mesh::{
    build_text_meshes, glyph_spans_in_range, GlyphQuad, Point, TextMesh, MAX_GLYPHS,
};

fn atlas(n: u64) -> ImageId {
    ImageId(AssetKey::Index(n))
}

fn glyph(texture: ImageId, span_index: usize, x: f32) -> GlyphQuad<f32> {
    GlyphQuad {
        texture,
        span_index,
        top_left: Point { x, y: -10.0 },
        bottom_right: Point { x: x + 8.0, y: 6.0 },
        uv_min: Point { x: x / 64.0, y: 0.25 },
        uv_max: Point { x: (x + 8.0) / 64.0, y: 0.75 },
    }
}

#[test]
fn single_span_ab_yields_one_group_of_two_quads() {
    let configured = Color::srgb(0.5, 0.25, 1.0);
    let linear = configured.to_linear().to_f32_array();
    // "AB": two glyphs of one span out of one atlas, centered on the anchor.
    let glyphs = vec![glyph(atlas(1), 0, -8.0), glyph(atlas(1), 0, 0.0)];
    let meshes = build_text_meshes(&glyphs, &vec![linear]);
    assert_eq!(meshes.len(), 1);
    let mesh = &meshes[0];
    assert_eq!(mesh.texture, atlas(1));
    assert_eq!(mesh.positions.len(), 8);
    assert_eq!(mesh.uvs.len(), 8);
    assert_eq!(mesh.colors.len(), 8);
    assert_eq!(mesh.indices.len(), 12);
    assert_eq!(mesh.colors, vec![linear; 8]);
    assert_ne!(linear, configured.to_srgba().to_f32_array());
}

#[test]
fn quad_corners_run_top_left_bottom_left_bottom_right_top_right() {
    let glyphs = vec![glyph(atlas(1), 0, 0.0)];
    let meshes = build_text_meshes(&glyphs, &vec![7u8]);
    assert_eq!(
        meshes[0].positions,
        vec![
            Point { x: 0.0, y: -10.0 },
            Point { x: 0.0, y: 6.0 },
            Point { x: 8.0, y: 6.0 },
            Point { x: 8.0, y: -10.0 },
        ]
    );
}

#[test]
fn texture_coordinates_are_flipped_vertically() {
    let glyphs = vec![glyph(atlas(1), 0, 16.0)];
    let meshes = build_text_meshes(&glyphs, &vec![7u8]);
    assert_eq!(
        meshes[0].uvs,
        vec![
            Point { x: 0.25, y: 0.75 },
            Point { x: 0.25, y: 0.25 },
            Point { x: 0.375, y: 0.25 },
            Point { x: 0.375, y: 0.75 },
        ]
    );
}

#[test]
fn every_quad_is_two_triangles() {
    let glyphs = vec![
        glyph(atlas(1), 0, 0.0),
        glyph(atlas(1), 0, 8.0),
        glyph(atlas(1), 0, 16.0),
    ];
    let meshes = build_text_meshes(&glyphs, &vec![0u8]);
    assert_eq!(
        meshes[0].indices,
        vec![0, 2, 1, 0, 3, 2, 4, 6, 5, 4, 7, 6, 8, 10, 9, 8, 11, 10]
    );
}

#[test]
fn glyphs_are_grouped_by_texture_in_order_of_first_use() {
    let glyphs = vec![
        glyph(atlas(9), 0, 0.0),
        glyph(atlas(2), 0, 8.0),
        glyph(atlas(9), 0, 16.0),
        glyph(ImageId(AssetKey::Uuid(2)), 0, 24.0),
    ];
    let meshes = build_text_meshes(&glyphs, &vec![0u8]);
    assert_eq!(meshes.len(), 3);
    assert_eq!(meshes[0].texture, atlas(9));
    assert_eq!(meshes[1].texture, atlas(2));
    assert_eq!(meshes[2].texture, ImageId(AssetKey::Uuid(2)));
    assert_eq!(meshes[0].positions.len(), 8);
    assert_eq!(meshes[1].positions.len(), 4);
    assert_eq!(meshes[2].positions.len(), 4);
    // Each mesh numbers its own vertices from zero.
    assert_eq!(meshes[0].indices, vec![0, 2, 1, 0, 3, 2, 4, 6, 5, 4, 7, 6]);
    assert_eq!(meshes[1].indices, vec![0, 2, 1, 0, 3, 2]);
    assert_eq!(meshes[0].positions[4], Point { x: 16.0, y: -10.0 });
    assert_eq!(meshes[1].positions[0], Point { x: 8.0, y: -10.0 });
}

#[test]
fn no_glyphs_yield_no_groups() {
    let glyphs: Vec<GlyphQuad<f32>> = Vec::new();
    let meshes: Vec<TextMesh<f32, u8>> = build_text_meshes(&glyphs, &Vec::new());
    assert!(meshes.is_empty());
}

#[test]
fn vertex_colors_follow_the_span_of_each_glyph() {
    let glyphs = vec![
        glyph(atlas(1), 0, 0.0),
        glyph(atlas(1), 1, 8.0),
        glyph(atlas(1), 1, 16.0),
        glyph(atlas(1), 0, 24.0),
    ];
    let meshes = build_text_meshes(&glyphs, &vec!['r', 'g']);
    assert_eq!(
        meshes[0].colors,
        vec!['r', 'r', 'r', 'r', 'g', 'g', 'g', 'g', 'g', 'g', 'g', 'g', 'r', 'r', 'r', 'r']
    );
}

#[test]
fn changing_one_span_color_changes_only_its_run() {
    let glyphs = vec![
        glyph(atlas(1), 0, 0.0),
        glyph(atlas(1), 1, 8.0),
        glyph(atlas(2), 1, 16.0),
        glyph(atlas(1), 2, 24.0),
    ];
    let before = build_text_meshes(&glyphs, &vec![10u8, 20, 30]);
    let after = build_text_meshes(&glyphs, &vec![10u8, 99, 30]);
    assert_eq!(before.len(), after.len());
    for (old, new) in before.iter().zip(after.iter()) {
        assert_eq!(old.texture, new.texture);
        assert_eq!(old.positions, new.positions);
        assert_eq!(old.uvs, new.uvs);
        assert_eq!(old.indices, new.indices);
    }
    assert_eq!(before[0].colors, vec![10, 10, 10, 10, 20, 20, 20, 20, 30, 30, 30, 30]);
    assert_eq!(after[0].colors, vec![10, 10, 10, 10, 99, 99, 99, 99, 30, 30, 30, 30]);
    assert_eq!(before[1].colors, vec![20, 20, 20, 20]);
    assert_eq!(after[1].colors, vec![99, 99, 99, 99]);
}

#[test]
fn rebuilding_unchanged_text_gives_identical_geometry() {
    let glyphs = vec![
        glyph(atlas(3), 0, 0.0),
        glyph(atlas(4), 1, 8.0),
        glyph(atlas(3), 1, 16.0),
    ];
    let colors = vec![[1.0f32, 0.0, 0.0, 1.0], [0.0, 1.0, 0.0, 0.5]];
    let first = build_text_meshes(&glyphs, &colors);
    let second = build_text_meshes(&glyphs, &colors);
    assert_eq!(first, second);
    assert_eq!(first.len(), 2);
}

#[test]
fn span_check_accepts_spans_below_the_count_only() {
    let glyphs = vec![glyph(atlas(1), 0, 0.0), glyph(atlas(1), 2, 8.0)];
    assert!(glyph_spans_in_range(&glyphs, 3));
    assert!(!glyph_spans_in_range(&glyphs, 2));
    assert!(!glyph_spans_in_range(&glyphs, 0));
    assert!(glyph_spans_in_range(&Vec::<GlyphQuad<f32>>::new(), 0));
    assert_eq!(MAX_GLYPHS, 1_073_741_823);
}
