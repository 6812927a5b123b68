//! Geometry synthesis for billboard text: positioned glyphs become triangle
//! meshes, one mesh per atlas texture that the glyphs sample from.
//!
//! Coordinates and colors are carried as opaque values of the caller's scalar
//! type `S` and color type `C`; nothing here computes with them.

use crate::asset::{AssetKey, ImageId};
use bevy::utils::HashMap;
use vstd::prelude::*;

verus! {

/// The largest number of glyphs one layout may hold, so that every vertex
/// index of a mesh fits its 32-bit index buffer.
pub const MAX_GLYPHS: usize = 0x3fff_ffff;

/// A point of the plane, in the caller's scalar type.
#[derive(Clone, Copy, Debug, PartialEq)]
pub struct Point<S> {
    pub x: S,
    pub y: S,
}

/// One shaped glyph after alignment: the two opposite corners of its quad,
/// the normalized sub-rectangle of the atlas that it samples, the atlas
/// texture it was rasterized into and the span of text it came from.
#[derive(Clone, Copy, Debug, PartialEq)]
pub struct GlyphQuad<S> {
    pub texture: ImageId,
    pub span_index: usize,
    pub top_left: Point<S>,
    pub bottom_right: Point<S>,
    pub uv_min: Point<S>,
    pub uv_max: Point<S>,
}

/// A triangle list for the glyphs of one atlas texture.
#[derive(Debug, PartialEq)]
pub struct TextMesh<S, C> {
    pub texture: ImageId,
    pub positions: Vec<Point<S>>,
    pub uvs: Vec<Point<S>>,
    pub colors: Vec<C>,
    pub indices: Vec<u32>,
}

/// The contents of a [`TextMesh`] as mathematical sequences.
pub struct TextMeshView<S, C> {
    pub texture: ImageId,
    pub positions: Seq<Point<S>>,
    pub uvs: Seq<Point<S>>,
    pub colors: Seq<C>,
    pub indices: Seq<u32>,
}

impl<S, C> View for TextMesh<S, C> {
    type V = TextMeshView<S, C>;

    open spec fn view(&self) -> TextMeshView<S, C> {
        TextMeshView {
            texture: self.texture,
            positions: self.positions@,
            uvs: self.uvs@,
            colors: self.colors@,
            indices: self.indices@,
        }
    }
}

/// Position of a quad's corner; corners run top-left, bottom-left,
/// bottom-right, top-right.
pub open spec fn corner_position<S>(g: GlyphQuad<S>, corner: int) -> Point<S> {
    if corner == 0 {
        Point { x: g.top_left.x, y: g.top_left.y }
    } else if corner == 1 {
        Point { x: g.top_left.x, y: g.bottom_right.y }
    } else if corner == 2 {
        Point { x: g.bottom_right.x, y: g.bottom_right.y }
    } else {
        Point { x: g.bottom_right.x, y: g.top_left.y }
    }
}

/// Texture coordinate of a quad's corner. The vertical axis is flipped with
/// respect to the positions: the top corners sample the rectangle's maximum.
pub open spec fn corner_uv<S>(g: GlyphQuad<S>, corner: int) -> Point<S> {
    if corner == 0 {
        Point { x: g.uv_min.x, y: g.uv_max.y }
    } else if corner == 1 {
        Point { x: g.uv_min.x, y: g.uv_min.y }
    } else if corner == 2 {
        Point { x: g.uv_max.x, y: g.uv_min.y }
    } else {
        Point { x: g.uv_max.x, y: g.uv_max.y }
    }
}

/// Corner used by each of the six index slots of a quad: the triangles
/// `(0, 2, 1)` and `(0, 3, 2)`.
pub open spec fn triangle_corner(slot: int) -> int {
    if slot == 0 {
        0
    } else if slot == 1 {
        2
    } else if slot == 2 {
        1
    } else if slot == 3 {
        0
    } else if slot == 4 {
        3
    } else {
        2
    }
}

/// Vertex positions of a run of glyphs: four per glyph, in glyph order.
pub open spec fn quad_positions<S>(glyphs: Seq<GlyphQuad<S>>) -> Seq<Point<S>> {
    Seq::new(4 * glyphs.len(), |v: int| corner_position(glyphs[v / 4], v % 4))
}

/// Texture coordinates of a run of glyphs: four per glyph, in glyph order.
pub open spec fn quad_uvs<S>(glyphs: Seq<GlyphQuad<S>>) -> Seq<Point<S>> {
    Seq::new(4 * glyphs.len(), |v: int| corner_uv(glyphs[v / 4], v % 4))
}

/// Vertex colors of a run of glyphs: every vertex of a glyph carries the
/// color of the glyph's span.
pub open spec fn quad_colors<S, C>(glyphs: Seq<GlyphQuad<S>>, span_colors: Seq<C>) -> Seq<C> {
    Seq::new(4 * glyphs.len(), |v: int| span_colors[glyphs[v / 4].span_index as int])
}

/// Index buffer of `count` quads: six indices per quad, the quad with number
/// `q` using the vertices `4q .. 4q + 3`.
pub open spec fn quad_indices(count: nat) -> Seq<u32> {
    Seq::new(6 * count, |i: int| (4 * (i / 6) + triangle_corner(i % 6)) as u32)
}

/// The glyphs that sample `texture`, in layout order.
pub open spec fn glyphs_with_texture<S>(glyphs: Seq<GlyphQuad<S>>, texture: ImageId) -> Seq<
    GlyphQuad<S>,
>
    decreases glyphs.len(),
{
    if glyphs.len() == 0 {
        Seq::empty()
    } else {
        let before = glyphs_with_texture(glyphs.drop_last(), texture);
        if glyphs.last().texture == texture {
            before.push(glyphs.last())
        } else {
            before
        }
    }
}

/// The distinct textures that the glyphs sample, each at the place of its
/// first glyph.
pub open spec fn textures_used<S>(glyphs: Seq<GlyphQuad<S>>) -> Seq<ImageId>
    decreases glyphs.len(),
{
    if glyphs.len() == 0 {
        Seq::empty()
    } else {
        let before = textures_used(glyphs.drop_last());
        if before.contains(glyphs.last().texture) {
            before
        } else {
            before.push(glyphs.last().texture)
        }
    }
}

/// Every glyph names a span that has a color.
pub open spec fn spans_in_range<S>(glyphs: Seq<GlyphQuad<S>>, span_count: nat) -> bool {
    forall|i: int| 0 <= i < glyphs.len() ==> (#[trigger] glyphs[i]).span_index < span_count
}

/// The mesh of the glyphs that sample `texture`.
pub open spec fn mesh_for<S, C>(
    glyphs: Seq<GlyphQuad<S>>,
    span_colors: Seq<C>,
    texture: ImageId,
) -> TextMeshView<S, C> {
    let own = glyphs_with_texture(glyphs, texture);
    TextMeshView {
        texture,
        positions: quad_positions(own),
        uvs: quad_uvs(own),
        colors: quad_colors(own, span_colors),
        indices: quad_indices(own.len()),
    }
}

/// The mesh groups of a layout: one mesh per texture in use, in the order in
/// which the textures are first met.
pub open spec fn text_meshes<S, C>(glyphs: Seq<GlyphQuad<S>>, span_colors: Seq<C>) -> Seq<
    TextMeshView<S, C>,
> {
    let textures = textures_used(glyphs);
    Seq::new(textures.len(), |j: int| mesh_for(glyphs, span_colors, textures[j]))
}

/// The views of a list of meshes.
pub open spec fn mesh_views<S, C>(meshes: Seq<TextMesh<S, C>>) -> Seq<TextMeshView<S, C>> {
    Seq::new(meshes.len(), |j: int| meshes[j]@)
}

/// How a texture's run grows with one more glyph of the layout.
proof fn lemma_with_texture_step<S>(glyphs: Seq<GlyphQuad<S>>, i: int, texture: ImageId)
    requires
        0 <= i < glyphs.len(),
    ensures
        glyphs_with_texture(glyphs.take(i + 1), texture) == if glyphs[i].texture == texture {
            glyphs_with_texture(glyphs.take(i), texture).push(glyphs[i])
        } else {
            glyphs_with_texture(glyphs.take(i), texture)
        },
{
    assert(glyphs.take(i + 1).drop_last() =~= glyphs.take(i));
}

/// How the textures in use grow with one more glyph of the layout.
proof fn lemma_textures_step<S>(glyphs: Seq<GlyphQuad<S>>, i: int)
    requires
        0 <= i < glyphs.len(),
    ensures
        textures_used(glyphs.take(i + 1)) == if textures_used(glyphs.take(i)).contains(
            glyphs[i].texture,
        ) {
            textures_used(glyphs.take(i))
        } else {
            textures_used(glyphs.take(i)).push(glyphs[i].texture)
        },
{
    assert(glyphs.take(i + 1).drop_last() =~= glyphs.take(i));
}

/// What one more glyph adds to the four buffers of a mesh.
proof fn lemma_push_quad<S, C>(glyphs: Seq<GlyphQuad<S>>, g: GlyphQuad<S>, span_colors: Seq<C>)
    requires
        glyphs.len() < MAX_GLYPHS,
    ensures
        quad_positions(glyphs.push(g)) == quad_positions(glyphs).push(corner_position(g, 0)).push(
            corner_position(g, 1),
        ).push(corner_position(g, 2)).push(corner_position(g, 3)),
        quad_uvs(glyphs.push(g)) == quad_uvs(glyphs).push(corner_uv(g, 0)).push(
            corner_uv(g, 1),
        ).push(corner_uv(g, 2)).push(corner_uv(g, 3)),
        quad_colors(glyphs.push(g), span_colors) == quad_colors(glyphs, span_colors).push(
            span_colors[g.span_index as int],
        ).push(span_colors[g.span_index as int]).push(span_colors[g.span_index as int]).push(
            span_colors[g.span_index as int],
        ),
        quad_indices((glyphs.len() + 1) as nat) == quad_indices(glyphs.len()).push(
            (4 * glyphs.len()) as u32,
        ).push((4 * glyphs.len() + 2) as u32).push((4 * glyphs.len() + 1) as u32).push(
            (4 * glyphs.len()) as u32,
        ).push((4 * glyphs.len() + 3) as u32).push((4 * glyphs.len() + 2) as u32),
{
    let n = glyphs.len() as int;
    let more = glyphs.push(g);
    assert(quad_positions(more) =~= quad_positions(glyphs).push(corner_position(g, 0)).push(
        corner_position(g, 1),
    ).push(corner_position(g, 2)).push(corner_position(g, 3)));
    assert(quad_uvs(more) =~= quad_uvs(glyphs).push(corner_uv(g, 0)).push(corner_uv(g, 1)).push(
        corner_uv(g, 2),
    ).push(corner_uv(g, 3)));
    assert(quad_colors(more, span_colors) =~= quad_colors(glyphs, span_colors).push(
        span_colors[g.span_index as int],
    ).push(span_colors[g.span_index as int]).push(span_colors[g.span_index as int]).push(
        span_colors[g.span_index as int],
    ));
    assert(quad_indices((n + 1) as nat) =~= quad_indices(n as nat).push((4 * n) as u32).push(
        (4 * n + 2) as u32,
    ).push((4 * n + 1) as u32).push((4 * n) as u32).push((4 * n + 3) as u32).push(
        (4 * n + 2) as u32,
    ));
}

/// Tells whether every glyph names a span below `span_count`.
pub fn glyph_spans_in_range<S>(glyphs: &Vec<GlyphQuad<S>>, span_count: usize) -> (ok: bool)
    ensures
        ok == spans_in_range(glyphs@, span_count as nat),
{
    let mut i: usize = 0;
    while i < glyphs.len()
        invariant
            i <= glyphs.len(),
            spans_in_range(glyphs@.take(i as int), span_count as nat),
        decreases glyphs.len() - i,
    {
        if glyphs[i].span_index >= span_count {
            return false;
        }
        proof {
            assert forall|k: int| 0 <= k < i + 1 implies (#[trigger] glyphs@.take(
                i + 1,
            )[k]).span_index < span_count by {
                if k < i {
                    assert(glyphs@.take(i as int)[k] == glyphs@[k]);
                }
            }
        }
        i += 1;
    }
    proof {
        assert(glyphs@.take(i as int) =~= glyphs@);
    }
    true
}

/// The key under which a texture is looked up: the kind of its identity and
/// the identity's bits.
pub open spec fn texture_key(texture: ImageId) -> (u8, u128) {
    match texture.0 {
        AssetKey::Index(bits) => (0u8, bits as u128),
        AssetKey::Uuid(uuid) => (1u8, uuid),
    }
}

/// Different textures have different keys.
pub proof fn lemma_texture_key_is_injective(a: ImageId, b: ImageId)
    requires
        texture_key(a) == texture_key(b),
    ensures
        a == b,
{
}

fn key_of(texture: ImageId) -> (key: (u8, u128))
    ensures
        key == texture_key(texture),
{
    match texture.0 {
        AssetKey::Index(bits) => (0u8, bits as u128),
        AssetKey::Uuid(uuid) => (1u8, uuid),
    }
}

/// The place of the group of each texture met so far, as a hash map from the
/// texture's key.
#[verifier::external_body]
pub struct TextureIndex {
    places: HashMap<(u8, u128), usize>,
}

/// The entries that a texture index holds.
pub uninterp spec fn texture_places(index: TextureIndex) -> Map<(u8, u128), usize>;

/// The entries of an index that holds nothing.
pub open spec fn no_places() -> Map<(u8, u128), usize> {
    Map::empty()
}

/// `HashMap::default`: the map it returns holds nothing.
#[verifier::external_body]
fn empty_index() -> (index: TextureIndex)
    ensures
        texture_places(index) == no_places(),
{
    TextureIndex { places: HashMap::default() }
}

/// `HashMap::get`: the value under the key, if the map holds the key.
#[verifier::external_body]
fn place_of(index: &TextureIndex, key: (u8, u128)) -> (place: Option<usize>)
    ensures
        place.is_some() == texture_places(*index).contains_key(key),
        place.is_some() ==> place.unwrap() == texture_places(*index)[key],
{
    index.places.get(&key).copied()
}

/// `HashMap::insert`: afterwards the map holds the value under the key, and
/// every other entry as before.
#[verifier::external_body]
fn record_place(index: &mut TextureIndex, key: (u8, u128), place: usize)
    ensures
        texture_places(*final(index)) == texture_places(*old(index)).insert(key, place),
{
    index.places.insert(key, place);
}

/// A texture that is not in use has no glyphs.
proof fn lemma_unused_texture_has_no_run<S>(glyphs: Seq<GlyphQuad<S>>, texture: ImageId)
    requires
        !textures_used(glyphs).contains(texture),
    ensures
        glyphs_with_texture(glyphs, texture) == Seq::<GlyphQuad<S>>::empty(),
    decreases glyphs.len(),
{
    if glyphs.len() > 0 {
        let before = textures_used(glyphs.drop_last());
        if before.contains(texture) {
            let k = choose|k: int| 0 <= k < before.len() && before[k] == texture;
            assert(textures_used(glyphs)[k] == texture);
        }
        if glyphs.last().texture == texture {
            assert(textures_used(glyphs)[before.len() as int] == texture);
        }
        lemma_unused_texture_has_no_run(glyphs.drop_last(), texture);
    }
}

/// The runs of a layout: the textures in use in the order of their first
/// glyphs, and beside each the glyphs that sample it.
struct TextureRuns<S> {
    textures: Vec<ImageId>,
    runs: Vec<Vec<GlyphQuad<S>>>,
}

fn group_by_texture<S: Copy>(glyphs: &Vec<GlyphQuad<S>>) -> (groups: TextureRuns<S>)
    ensures
        groups.textures@ == textures_used(glyphs@),
        groups.runs.len() == groups.textures.len(),
        forall|j: int|
            0 <= j < groups.runs.len() ==> (#[trigger] groups.runs@[j])@ == glyphs_with_texture(
                glyphs@,
                groups.textures@[j],
            ),
{
    let mut index = empty_index();
    let mut textures: Vec<ImageId> = Vec::new();
    let mut runs: Vec<Vec<GlyphQuad<S>>> = Vec::new();
    let mut i: usize = 0;
    while i < glyphs.len()
        invariant
            i <= glyphs.len(),
            textures@ == textures_used(glyphs@.take(i as int)),
            runs.len() == textures.len(),
            forall|j: int|
                0 <= j < runs.len() ==> (#[trigger] runs@[j])@ == glyphs_with_texture(
                    glyphs@.take(i as int),
                    textures@[j],
                ),
            forall|j: int|
                0 <= j < textures.len() ==> texture_places(index).contains_key(
                    texture_key(#[trigger] textures@[j]),
                ) && texture_places(index)[texture_key(textures@[j])] == j,
            forall|key: (u8, u128)| #[trigger]
                texture_places(index).contains_key(key) ==> texture_places(index)[key]
                    < textures.len() && texture_key(textures@[texture_places(index)[key] as int])
                    == key,
        decreases glyphs.len() - i,
    {
        let glyph = glyphs[i];
        let key = key_of(glyph.texture);
        let ghost before_textures = textures@;
        let ghost before_runs = runs@;
        proof {
            lemma_textures_step(glyphs@, i as int);
            assert forall|j: int| 0 <= j < textures.len() implies glyphs_with_texture(
                glyphs@.take(i + 1),
                #[trigger] textures@[j],
            ) == if textures@[j] == glyph.texture {
                glyphs_with_texture(glyphs@.take(i as int), textures@[j]).push(glyph)
            } else {
                glyphs_with_texture(glyphs@.take(i as int), textures@[j])
            } by {
                lemma_with_texture_step(glyphs@, i as int, textures@[j]);
            }
            lemma_with_texture_step(glyphs@, i as int, glyph.texture);
        }
        match place_of(&index, key) {
            Some(place) => {
                proof {
                    lemma_texture_key_is_injective(textures@[place as int], glyph.texture);
                    assert(textures@.contains(glyph.texture));
                }
                runs[place].push(glyph);
                proof {
                    assert forall|j: int| 0 <= j < runs.len() implies (#[trigger] runs@[j])@
                        == glyphs_with_texture(glyphs@.take(i + 1), textures@[j]) by {
                        if j != place {
                            assert(runs@[j] == before_runs[j]);
                            assert(texture_places(index)[texture_key(textures@[j])] == j);
                        }
                    }
                }
            },
            None => {
                proof {
                    if textures@.contains(glyph.texture) {
                        let j = choose|j: int|
                            0 <= j < textures@.len() && textures@[j] == glyph.texture;
                        assert(texture_places(index).contains_key(texture_key(textures@[j])));
                    }
                    lemma_unused_texture_has_no_run(glyphs@.take(i as int), glyph.texture);
                }
                record_place(&mut index, key, runs.len());
                textures.push(glyph.texture);
                let mut run = Vec::new();
                run.push(glyph);
                runs.push(run);
                proof {
                    assert forall|j: int| 0 <= j < runs.len() implies (#[trigger] runs@[j])@
                        == glyphs_with_texture(glyphs@.take(i + 1), textures@[j]) by {
                        if j < before_runs.len() {
                            assert(runs@[j] == before_runs[j]);
                            assert(textures@[j] == before_textures[j]);
                            assert(before_textures.contains(before_textures[j]));
                        } else {
                            assert(runs@[j]@ =~= Seq::<GlyphQuad<S>>::empty().push(glyph));
                        }
                    }
                    assert forall|j: int| 0 <= j < textures.len() implies texture_places(
                        index,
                    ).contains_key(texture_key(#[trigger] textures@[j])) && texture_places(
                        index,
                    )[texture_key(textures@[j])] == j by {
                        if j < before_textures.len() {
                            assert(textures@[j] == before_textures[j]);
                            assert(before_textures.contains(before_textures[j]));
                            if texture_key(textures@[j]) == key {
                                lemma_texture_key_is_injective(textures@[j], glyph.texture);
                            }
                        }
                    }
                    assert forall|k: (u8, u128)| #[trigger]
                        texture_places(index).contains_key(k) implies texture_places(index)[k]
                        < textures.len() && texture_key(
                        textures@[texture_places(index)[k] as int],
                    ) == k by {
                        if k != key {
                            let place = texture_places(index)[k];
                            assert(textures@[place as int] == before_textures[place as int]);
                        }
                    }
                }
            },
        }
        i += 1;
    }
    proof {
        assert(glyphs@.take(i as int) =~= glyphs@);
    }
    TextureRuns { textures, runs }
}

fn build_mesh<S: Copy, C: Copy>(
    run: &Vec<GlyphQuad<S>>,
    span_colors: &Vec<C>,
    texture: ImageId,
) -> (mesh: TextMesh<S, C>)
    requires
        run.len() <= MAX_GLYPHS,
        spans_in_range(run@, span_colors@.len()),
    ensures
        mesh@ == (TextMeshView {
            texture,
            positions: quad_positions(run@),
            uvs: quad_uvs(run@),
            colors: quad_colors(run@, span_colors@),
            indices: quad_indices(run@.len()),
        }),
{
    let mut positions: Vec<Point<S>> = Vec::new();
    let mut uvs: Vec<Point<S>> = Vec::new();
    let mut colors: Vec<C> = Vec::new();
    let mut indices: Vec<u32> = Vec::new();
    // The color is looked up only where the span changes along the run.
    let mut current: Option<(usize, C)> = None;
    let mut index: u32 = 0;
    let mut i: usize = 0;
    while i < run.len()
        invariant
            i <= run.len(),
            run.len() <= MAX_GLYPHS,
            spans_in_range(run@, span_colors@.len()),
            index == 4 * i,
            positions@ == quad_positions(run@.take(i as int)),
            uvs@ == quad_uvs(run@.take(i as int)),
            colors@ == quad_colors(run@.take(i as int), span_colors@),
            indices@ == quad_indices(i as nat),
            match current {
                Some((span, color)) => span < span_colors@.len() && color
                    == span_colors@[span as int],
                None => true,
            },
        decreases run.len() - i,
    {
        let g = run[i];
        proof {
            lemma_push_quad(run@.take(i as int), g, span_colors@);
            assert(run@.take(i + 1) =~= run@.take(i as int).push(g));
        }
        positions.push(Point { x: g.top_left.x, y: g.top_left.y });
        positions.push(Point { x: g.top_left.x, y: g.bottom_right.y });
        positions.push(Point { x: g.bottom_right.x, y: g.bottom_right.y });
        positions.push(Point { x: g.bottom_right.x, y: g.top_left.y });

        uvs.push(Point { x: g.uv_min.x, y: g.uv_max.y });
        uvs.push(Point { x: g.uv_min.x, y: g.uv_min.y });
        uvs.push(Point { x: g.uv_max.x, y: g.uv_min.y });
        uvs.push(Point { x: g.uv_max.x, y: g.uv_max.y });

        let color = match current {
            Some((span, color)) => {
                if span == g.span_index {
                    color
                } else {
                    span_colors[g.span_index]
                }
            },
            None => span_colors[g.span_index],
        };
        current = Some((g.span_index, color));
        colors.push(color);
        colors.push(color);
        colors.push(color);
        colors.push(color);

        indices.push(index);
        indices.push(index + 2);
        indices.push(index + 1);
        indices.push(index);
        indices.push(index + 3);
        indices.push(index + 2);
        index = index + 4;
        i += 1;
    }
    proof {
        assert(run@.take(i as int) =~= run@);
    }
    TextMesh { texture, positions, uvs, colors, indices }
}

/// Turns the glyphs of one layout into its mesh groups: one mesh per atlas
/// texture in use, ordered by the first glyph of each texture, each glyph a
/// quad of four vertices and two triangles.
pub fn build_text_meshes<S: Copy, C: Copy>(
    glyphs: &Vec<GlyphQuad<S>>,
    span_colors: &Vec<C>,
) -> (meshes: Vec<TextMesh<S, C>>)
    requires
        glyphs.len() <= MAX_GLYPHS,
        spans_in_range(glyphs@, span_colors@.len()),
    ensures
        mesh_views(meshes@) == text_meshes(glyphs@, span_colors@),
{
    let groups = group_by_texture(glyphs);
    let mut meshes: Vec<TextMesh<S, C>> = Vec::new();
    let mut j: usize = 0;
    while j < groups.runs.len()
        invariant
            j <= groups.runs.len(),
            glyphs.len() <= MAX_GLYPHS,
            spans_in_range(glyphs@, span_colors@.len()),
            groups.textures@ == textures_used(glyphs@),
            groups.runs.len() == groups.textures.len(),
            forall|k: int|
                0 <= k < groups.runs.len() ==> (#[trigger] groups.runs@[k])@
                    == glyphs_with_texture(glyphs@, groups.textures@[k]),
            meshes.len() == j,
            forall|k: int|
                0 <= k < j ==> (#[trigger] meshes@[k])@ == mesh_for(
                    glyphs@,
                    span_colors@,
                    groups.textures@[k],
                ),
        decreases groups.runs.len() - j,
    {
        proof {
            lemma_run_keeps_spans(glyphs@, groups.textures@[j as int], span_colors@.len());
            lemma_run_is_no_longer(glyphs@, groups.textures@[j as int]);
            assert(groups.runs@[j as int]@ == glyphs_with_texture(
                glyphs@,
                groups.textures@[j as int],
            ));
        }
        let mesh = build_mesh(&groups.runs[j], span_colors, groups.textures[j]);
        meshes.push(mesh);
        j += 1;
    }
    proof {
        assert(mesh_views(meshes@) =~= text_meshes(glyphs@, span_colors@));
    }
    meshes
}

/// A texture's run holds no more glyphs than the layout.
proof fn lemma_run_is_no_longer<S>(glyphs: Seq<GlyphQuad<S>>, texture: ImageId)
    ensures
        glyphs_with_texture(glyphs, texture).len() <= glyphs.len(),
    decreases glyphs.len(),
{
    if glyphs.len() > 0 {
        lemma_run_is_no_longer(glyphs.drop_last(), texture);
    }
}

/// A texture's run is the layout filtered by the texture: the glyphs that
/// sample it, none left out and none added, in the order of the layout.
pub proof fn lemma_run_is_filter<S>(glyphs: Seq<GlyphQuad<S>>, texture: ImageId)
    ensures
        glyphs_with_texture(glyphs, texture) == glyphs.filter(
            |g: GlyphQuad<S>| g.texture == texture,
        ),
    decreases glyphs.len(),
{
    reveal(Seq::filter);
    if glyphs.len() > 0 {
        lemma_run_is_filter(glyphs.drop_last(), texture);
    }
}

/// Every glyph of a texture's run is a glyph of the layout that samples that
/// texture, so what holds of all spans of the layout holds of the run.
pub proof fn lemma_run_keeps_spans<S>(glyphs: Seq<GlyphQuad<S>>, texture: ImageId, span_count: nat)
    requires
        spans_in_range(glyphs, span_count),
    ensures
        spans_in_range(glyphs_with_texture(glyphs, texture), span_count),
        forall|k: int|
            0 <= k < glyphs_with_texture(glyphs, texture).len() ==> (#[trigger] glyphs_with_texture(
                glyphs,
                texture,
            )[k]).texture == texture,
    decreases glyphs.len(),
{
    if glyphs.len() > 0 {
        assert forall|i: int| 0 <= i < glyphs.drop_last().len() implies (#[trigger] glyphs.drop_last()[i]).span_index
            < span_count by {
            assert(glyphs.drop_last()[i] == glyphs[i]);
        }
        lemma_run_keeps_spans(glyphs.drop_last(), texture, span_count);
        assert(glyphs.last() == glyphs[glyphs.len() - 1]);
    }
}

/// There is exactly one mesh group per texture in use: no texture is listed
/// twice, a texture is listed just when some glyph samples it, and the run
/// of a listed texture is not empty.
pub proof fn lemma_one_group_per_texture<S>(glyphs: Seq<GlyphQuad<S>>)
    ensures
        textures_used(glyphs).no_duplicates(),
        forall|texture: ImageId| #[trigger]
            textures_used(glyphs).contains(texture) <==> exists|i: int|
                0 <= i < glyphs.len() && (#[trigger] glyphs[i]).texture == texture,
        forall|texture: ImageId| #[trigger]
            textures_used(glyphs).contains(texture) ==> glyphs_with_texture(glyphs, texture).len()
                > 0,
    decreases glyphs.len(),
{
    if glyphs.len() > 0 {
        let shorter = glyphs.drop_last();
        let before = textures_used(shorter);
        let last = glyphs.last();
        lemma_one_group_per_texture(shorter);
        assert forall|texture: ImageId| #[trigger]
            textures_used(glyphs).contains(texture) implies (exists|i: int|
            0 <= i < glyphs.len() && (#[trigger] glyphs[i]).texture == texture)
            && glyphs_with_texture(glyphs, texture).len() > 0 by {
            if before.contains(texture) {
                let i = choose|i: int|
                    0 <= i < shorter.len() && (#[trigger] shorter[i]).texture == texture;
                assert(glyphs[i].texture == texture);
            } else {
                let k = choose|k: int|
                    0 <= k < textures_used(glyphs).len() && textures_used(glyphs)[k] == texture;
                assert(texture == last.texture);
                assert(glyphs[glyphs.len() - 1].texture == texture);
            }
        }
        assert forall|texture: ImageId|
            (exists|i: int|
                0 <= i < glyphs.len() && (#[trigger] glyphs[i]).texture
                    == texture) implies #[trigger] textures_used(glyphs).contains(texture) by {
            let i = choose|i: int| 0 <= i < glyphs.len() && (#[trigger] glyphs[i]).texture == texture;
            if i < shorter.len() {
                assert(shorter[i].texture == texture);
                assert(before.contains(texture));
            }
            if before.contains(texture) {
                let k = choose|k: int| 0 <= k < before.len() && before[k] == texture;
                assert(textures_used(glyphs)[k] == texture);
            } else {
                assert(textures_used(glyphs)[before.len() as int] == texture);
            }
        }
    }
}

/// The textures in use are listed in the order of their first glyphs: each
/// one enters the list at a glyph before which only the textures listed
/// before it are in use.
pub proof fn lemma_textures_follow_first_use<S>(glyphs: Seq<GlyphQuad<S>>, place: int)
    requires
        0 <= place < textures_used(glyphs).len(),
    ensures
        exists|i: int|
            0 <= i < glyphs.len() && (#[trigger] glyphs[i]).texture == textures_used(glyphs)[place]
                && textures_used(glyphs.take(i)) == textures_used(glyphs).take(place),
    decreases glyphs.len(),
{
    let shorter = glyphs.drop_last();
    let before = textures_used(shorter);
    if place < before.len() {
        lemma_textures_follow_first_use(shorter, place);
        let i = choose|i: int|
            0 <= i < shorter.len() && (#[trigger] shorter[i]).texture == before[place]
                && textures_used(shorter.take(i)) == before.take(place);
        assert(glyphs.take(i) =~= shorter.take(i));
        assert(textures_used(glyphs).take(place) =~= before.take(place));
        assert(glyphs[i].texture == textures_used(glyphs)[place]);
    } else {
        let i = glyphs.len() - 1;
        assert(glyphs.take(i) =~= shorter);
        assert(textures_used(glyphs).take(place) =~= before);
        assert(glyphs[i].texture == textures_used(glyphs)[place]);
    }
}

/// The buffers of a mesh fit together: four vertices and six indices per
/// glyph of the run, and every index names a vertex of the mesh.
pub proof fn lemma_mesh_is_well_formed<S, C>(
    glyphs: Seq<GlyphQuad<S>>,
    span_colors: Seq<C>,
    texture: ImageId,
)
    requires
        glyphs.len() <= MAX_GLYPHS,
    ensures
        mesh_for(glyphs, span_colors, texture).positions.len() == 4 * glyphs_with_texture(
            glyphs,
            texture,
        ).len(),
        mesh_for(glyphs, span_colors, texture).uvs.len() == mesh_for(
            glyphs,
            span_colors,
            texture,
        ).positions.len(),
        mesh_for(glyphs, span_colors, texture).colors.len() == mesh_for(
            glyphs,
            span_colors,
            texture,
        ).positions.len(),
        mesh_for(glyphs, span_colors, texture).indices.len() == 6 * glyphs_with_texture(
            glyphs,
            texture,
        ).len(),
        forall|i: int|
            0 <= i < mesh_for(glyphs, span_colors, texture).indices.len() ==> (#[trigger] mesh_for(
                glyphs,
                span_colors,
                texture,
            ).indices[i]) < mesh_for(glyphs, span_colors, texture).positions.len(),
{
    lemma_run_is_no_longer(glyphs, texture);
}

/// Building the meshes of the same glyphs and colors twice gives the same
/// geometry: positions, texture coordinates, colors and indices agree mesh by
/// mesh.
pub proof fn lemma_rebuild_is_identical<S, C>(
    glyphs: Seq<GlyphQuad<S>>,
    span_colors: Seq<C>,
    first: Seq<TextMesh<S, C>>,
    second: Seq<TextMesh<S, C>>,
)
    requires
        mesh_views(first) == text_meshes(glyphs, span_colors),
        mesh_views(second) == text_meshes(glyphs, span_colors),
    ensures
        first.len() == second.len(),
        forall|j: int| 0 <= j < first.len() ==> (#[trigger] first[j])@ == second[j]@,
{
    assert(mesh_views(first).len() == first.len());
    assert(mesh_views(second).len() == second.len());
    assert forall|j: int| 0 <= j < first.len() implies (#[trigger] first[j])@ == second[j]@ by {
        assert(mesh_views(first)[j] == first[j]@);
        assert(mesh_views(second)[j] == second[j]@);
    }
}

/// Every quad is two triangles: with `i` the first vertex of the quad, its
/// six indices are `i, i + 2, i + 1` and `i, i + 3, i + 2`.
pub proof fn lemma_quad_is_two_triangles(count: nat, quad: int)
    requires
        0 <= quad < count <= MAX_GLYPHS,
    ensures
        quad_indices(count).len() == 6 * count,
        quad_indices(count).subrange(6 * quad, 6 * quad + 6) == seq![
            (4 * quad) as u32,
            (4 * quad + 2) as u32,
            (4 * quad + 1) as u32,
            (4 * quad) as u32,
            (4 * quad + 3) as u32,
            (4 * quad + 2) as u32,
        ],
        4 * quad + 3 <= u32::MAX,
{
    assert(quad_indices(count).subrange(6 * quad, 6 * quad + 6) =~= seq![
        (4 * quad) as u32,
        (4 * quad + 2) as u32,
        (4 * quad + 1) as u32,
        (4 * quad) as u32,
        (4 * quad + 3) as u32,
        (4 * quad + 2) as u32,
    ]);
}

/// Where the color of one span changes and nothing else, the rebuilt mesh of
/// every texture keeps its positions, texture coordinates and indices, and a
/// vertex takes the new color just when its glyph belongs to that span: every
/// other vertex keeps the color it had.
pub proof fn lemma_span_color_change_is_local<S, C>(
    glyphs: Seq<GlyphQuad<S>>,
    before: Seq<C>,
    after: Seq<C>,
    span: int,
    texture: ImageId,
    vertex: int,
)
    requires
        before.len() == after.len(),
        spans_in_range(glyphs, before.len()),
        forall|s: int| 0 <= s < before.len() && s != span ==> before[s] == after[s],
        0 <= vertex < 4 * glyphs_with_texture(glyphs, texture).len(),
    ensures
        text_meshes(glyphs, before).len() == text_meshes(glyphs, after).len(),
        mesh_for(glyphs, after, texture).positions == mesh_for(glyphs, before, texture).positions,
        mesh_for(glyphs, after, texture).uvs == mesh_for(glyphs, before, texture).uvs,
        mesh_for(glyphs, after, texture).indices == mesh_for(glyphs, before, texture).indices,
        mesh_for(glyphs, after, texture).colors.len() == mesh_for(
            glyphs,
            before,
            texture,
        ).colors.len(),
        mesh_for(glyphs, after, texture).colors[vertex] == if glyphs_with_texture(
            glyphs,
            texture,
        )[vertex / 4].span_index == span {
            after[span]
        } else {
            mesh_for(glyphs, before, texture).colors[vertex]
        },
{
    lemma_run_keeps_spans(glyphs, texture, before.len());
    let own = glyphs_with_texture(glyphs, texture);
    assert(own[vertex / 4].span_index < before.len());
}

} // verus!
