//! Preparation: from the extracted sprites to the two shared buffers.
//!
//! Every sprite becomes the four vertices of a quad and the six indices of
//! its two triangles. Sprite `i` owns vertices `4i .. 4i + 4` and indices
//! `6i .. 6i + 6`, and nothing else.

use crate::extract::ExtractedSprite;
use crate::math::{Mat4, Rect, Vec2, Vec3, HALF, NEG_HALF, ZERO};
use crate::pipeline::BindGroupDescriptor;
use vstd::prelude::*;

verus! {

/// Corners of a quad.
pub const QUAD_VERTICES: usize = 4;

/// Indices of the two triangles of a quad.
pub const QUAD_INDICES: usize = 6;

/// The most sprites that one frame can hold: six indices for each, counted
/// in 32 bits.
pub const MAX_SPRITES: usize = 715_827_882;

/// One vertex of a sprite, before its scalars are evaluated.
///
/// The position of the vertex is `corner`, scaled by the width and height of
/// `rect` (and by 1 in depth), then moved by `transform`. Its texture
/// coordinate is `anchor` divided by `divisor`, component by component.
#[derive(Clone, Copy, Debug, PartialEq, Eq)]
pub struct SpriteVertex {
    pub corner: Vec3,
    pub rect: Rect,
    pub transform: Mat4,
    pub anchor: Vec2,
    pub divisor: Vec2,
}

/// The template that every sprite is stamped from: the four corners of a
/// quad in local space, in winding order bottom-left, top-left, top-right,
/// bottom-right, and the six indices of its two triangles.
#[derive(Debug)]
pub struct QuadMesh {
    positions: Vec<Vec3>,
    indices: Vec<u32>,
}

/// Whether corners and indices make a quad: four corners, six indices, and
/// no index past the last corner.
pub open spec fn is_quad(positions: Seq<Vec3>, indices: Seq<u32>) -> bool {
    &&& positions.len() == QUAD_VERTICES
    &&& indices.len() == QUAD_INDICES
    &&& forall|j: int| 0 <= j < indices.len() ==> indices[j] < QUAD_VERTICES
}

/// The corners of the unit quad, centred on the origin.
pub open spec fn unit_positions() -> Seq<Vec3> {
    seq![
        Vec3 { x: NEG_HALF, y: NEG_HALF, z: ZERO },
        Vec3 { x: NEG_HALF, y: HALF, z: ZERO },
        Vec3 { x: HALF, y: HALF, z: ZERO },
        Vec3 { x: HALF, y: NEG_HALF, z: ZERO },
    ]
}

/// The two triangles of the unit quad.
pub open spec fn unit_indices() -> Seq<u32> {
    seq![0u32, 2u32, 1u32, 0u32, 3u32, 2u32]
}

impl QuadMesh {
    /// The corners.
    pub closed spec fn positions(self) -> Seq<Vec3> {
        self.positions@
    }

    /// The indices.
    pub closed spec fn indices(self) -> Seq<u32> {
        self.indices@
    }

    /// Every template is a quad.
    #[verifier::type_invariant]
    pub closed spec fn wf(self) -> bool {
        is_quad(self.positions@, self.indices@)
    }

    /// What `wf` says, over the two public views.
    pub proof fn lemma_wf(self)
        requires
            self.wf(),
        ensures
            is_quad(self.positions(), self.indices()),
    {
    }

    /// The unit quad.
    pub fn unit() -> (quad: QuadMesh)
        ensures
            quad.wf(),
            quad.positions() == unit_positions(),
            quad.indices() == unit_indices(),
    {
        let mut positions: Vec<Vec3> = Vec::new();
        positions.push(Vec3 { x: NEG_HALF, y: NEG_HALF, z: ZERO });
        positions.push(Vec3 { x: NEG_HALF, y: HALF, z: ZERO });
        positions.push(Vec3 { x: HALF, y: HALF, z: ZERO });
        positions.push(Vec3 { x: HALF, y: NEG_HALF, z: ZERO });
        let mut indices: Vec<u32> = Vec::new();
        indices.push(0);
        indices.push(2);
        indices.push(1);
        indices.push(0);
        indices.push(3);
        indices.push(2);
        assert(positions@ =~= unit_positions());
        assert(indices@ =~= unit_indices());
        QuadMesh { positions, indices }
    }

    /// A template from given corners and indices, if they make a quad.
    pub fn new(positions: Vec<Vec3>, indices: Vec<u32>) -> (quad: Option<QuadMesh>)
        ensures
            quad is Some <==> is_quad(positions@, indices@),
            quad matches Some(q) ==> q.wf() && q.positions() == positions@ && q.indices()
                == indices@,
    {
        if positions.len() != QUAD_VERTICES || indices.len() != QUAD_INDICES {
            return None;
        }
        let mut j: usize = 0;
        while j < indices.len()
            invariant
                j <= indices.len(),
                forall|i: int| 0 <= i < j ==> indices@[i] < QUAD_VERTICES,
            decreases indices.len() - j,
        {
            if indices[j] >= QUAD_VERTICES as u32 {
                return None;
            }
            j += 1;
        }
        Some(QuadMesh { positions, indices })
    }

    /// Corner `k`.
    pub fn corner(&self, k: usize) -> (p: Vec3)
        requires
            k < QUAD_VERTICES,
        ensures
            p == self.positions()[k as int],
    {
        proof {
            use_type_invariant(self);
        }
        self.positions[k]
    }

    /// Index `j`.
    pub fn index(&self, j: usize) -> (v: u32)
        requires
            j < QUAD_INDICES,
        ensures
            v == self.indices()[j as int],
            v < QUAD_VERTICES,
    {
        proof {
            use_type_invariant(self);
        }
        self.indices[j]
    }
}

/// What is shared by all sprites of a frame: the two buffers, the template
/// that fills them, and the bind group of the views.
#[derive(Debug)]
pub struct SpriteMeta {
    /// The vertex buffer, four records for each sprite.
    pub vertices: Vec<SpriteVertex>,
    /// The index buffer, six indices for each sprite.
    pub indices: Vec<u32>,
    /// The template.
    pub quad: QuadMesh,
    /// The bind group of the views, once a frame has been queued.
    pub view_bind_group: Option<BindGroupDescriptor>,
}

/// The divisor that turns the anchors of a sprite into texture coordinates:
/// the size of the atlas where the sprite is cut from one, else the far
/// corner of its own rectangle, which starts at the origin.
pub open spec fn uv_divisor(sprite: ExtractedSprite) -> Vec2 {
    match sprite.atlas_size {
        Some(size) => size,
        None => sprite.rect.max,
    }
}

/// Vertex `k` of a sprite, stamped from the corners `positions`.
pub open spec fn sprite_vertex(positions: Seq<Vec3>, sprite: ExtractedSprite, k: int)
    -> SpriteVertex {
    SpriteVertex {
        corner: positions[k],
        rect: sprite.rect,
        transform: sprite.transform,
        anchor: sprite.rect.spec_anchor(k),
        divisor: uv_divisor(sprite),
    }
}

/// The vertex buffer of a frame: vertex `j` is corner `j % 4` of sprite
/// `j / 4`.
pub open spec fn batch_vertices(positions: Seq<Vec3>, sprites: Seq<ExtractedSprite>) -> Seq<
    SpriteVertex,
> {
    Seq::new(
        QUAD_VERTICES as nat * sprites.len(),
        |j: int| sprite_vertex(positions, sprites[j / 4], j % 4),
    )
}

/// The index buffer of a frame of `count` sprites: index `j` is index
/// `j % 6` of the template, moved to the vertices of sprite `j / 6`.
pub open spec fn batch_indices(indices: Seq<u32>, count: nat) -> Seq<u32> {
    Seq::new(QUAD_INDICES as nat * count, |j: int| (4 * (j / 6) + indices[j % 6]) as u32)
}

/// The sprites of a frame after preparation: each knows its place in the
/// list.
pub open spec fn with_batch_indices(sprites: Seq<ExtractedSprite>) -> Seq<ExtractedSprite> {
    Seq::new(
        sprites.len(),
        |i: int| ExtractedSprite { batch_index: i as usize, ..sprites[i] },
    )
}

impl SpriteMeta {
    /// Empty buffers around a given template.
    pub fn new(quad: QuadMesh) -> (meta: SpriteMeta)
        ensures
            meta.vertices@.len() == 0,
            meta.indices@.len() == 0,
            meta.quad == quad,
            meta.view_bind_group is None,
    {
        SpriteMeta { vertices: Vec::new(), indices: Vec::new(), quad, view_bind_group: None }
    }
}

impl Default for SpriteMeta {
    /// Empty buffers around the unit quad.
    fn default() -> (meta: SpriteMeta)
        ensures
            meta.vertices@.len() == 0,
            meta.indices@.len() == 0,
            meta.quad.positions() == unit_positions(),
            meta.quad.indices() == unit_indices(),
            meta.view_bind_group is None,
    {
        SpriteMeta::new(QuadMesh::unit())
    }
}

/// Fills the two buffers from the sprites of the frame, and tells each
/// sprite its slot.
///
/// A frame without sprites leaves the buffers as they are and returns
/// `false`: there is nothing to allocate and nothing to upload. Otherwise
/// both buffers are rewritten from scratch, and the result is `true`.
pub fn prepare_sprites(
    sprite_meta: &mut SpriteMeta,
    extracted_sprites: &mut Vec<ExtractedSprite>,
) -> (written: bool)
    requires
        old(extracted_sprites)@.len() <= MAX_SPRITES,
    ensures
        written == (old(extracted_sprites)@.len() > 0),
        final(extracted_sprites)@ == with_batch_indices(old(extracted_sprites)@),
        forall|i: int|
            0 <= i < final(extracted_sprites)@.len() ==> (
            #[trigger] final(extracted_sprites)@[i]).batch_index == i,
        final(sprite_meta).quad == old(sprite_meta).quad,
        final(sprite_meta).view_bind_group == old(sprite_meta).view_bind_group,
        !written ==> *final(sprite_meta) == *old(sprite_meta),
        written ==> final(sprite_meta).vertices@ == batch_vertices(
            old(sprite_meta).quad.positions(),
            old(extracted_sprites)@,
        ),
        written ==> final(sprite_meta).indices@ == batch_indices(
            old(sprite_meta).quad.indices(),
            old(extracted_sprites)@.len(),
        ),
        written ==> final(sprite_meta).vertices@.len() == 4 * old(extracted_sprites)@.len(),
        written ==> final(sprite_meta).indices@.len() == 6 * old(extracted_sprites)@.len(),
        forall|j: int|
            written && 0 <= j < final(sprite_meta).indices@.len() ==> (
            #[trigger] final(sprite_meta).indices@[j]) < 4 * old(extracted_sprites)@.len(),
{
    let count = extracted_sprites.len();
    if count == 0 {
        assert(extracted_sprites@ =~= with_batch_indices(extracted_sprites@));
        return false;
    }
    let ghost sprites = extracted_sprites@;
    let ghost positions = sprite_meta.quad.positions();
    let ghost template = sprite_meta.quad.indices();
    proof {
        use_type_invariant(&sprite_meta.quad);
        sprite_meta.quad.lemma_wf();
    }
    sprite_meta.vertices.clear();
    sprite_meta.indices.clear();
    sprite_meta.vertices.reserve(count * QUAD_VERTICES);
    sprite_meta.indices.reserve(count * QUAD_INDICES);
    let mut i: usize = 0;
    while i < count
        invariant
            i <= count,
            count == sprites.len(),
            count <= MAX_SPRITES,
            extracted_sprites@.len() == count,
            sprite_meta.quad == old(sprite_meta).quad,
            sprite_meta.view_bind_group == old(sprite_meta).view_bind_group,
            positions == sprite_meta.quad.positions(),
            template == sprite_meta.quad.indices(),
            is_quad(positions, template),
            forall|s: int|
                0 <= s < i ==> extracted_sprites@[s] == (ExtractedSprite {
                    batch_index: s as usize,
                    ..sprites[s]
                }),
            forall|s: int| i <= s < count ==> extracted_sprites@[s] == sprites[s],
            sprite_meta.vertices@.len() == 4 * i,
            forall|j: int|
                0 <= j < 4 * i ==> sprite_meta.vertices@[j] == sprite_vertex(
                    positions,
                    sprites[j / 4],
                    j % 4,
                ),
            sprite_meta.indices@.len() == 6 * i,
            forall|j: int|
                0 <= j < 6 * i ==> sprite_meta.indices@[j] == (4 * (j / 6) + template[j % 6]) as u32,
        decreases count - i,
    {
        let mut sprite = extracted_sprites[i];
        sprite.batch_index = i;
        extracted_sprites.set(i, sprite);
        let divisor = match sprite.atlas_size {
            Some(size) => size,
            None => sprite.rect.max,
        };
        let mut k: usize = 0;
        while k < QUAD_VERTICES
            invariant
                k <= QUAD_VERTICES,
                i < count,
                count == sprites.len(),
                sprite == (ExtractedSprite { batch_index: i, ..sprites[i as int] }),
                divisor == uv_divisor(sprite),
                sprite_meta.quad == old(sprite_meta).quad,
                sprite_meta.view_bind_group == old(sprite_meta).view_bind_group,
                positions == sprite_meta.quad.positions(),
                sprite_meta.indices@.len() == 6 * i,
                forall|j: int|
                    0 <= j < 6 * i ==> sprite_meta.indices@[j] == (4 * (j / 6) + template[j
                        % 6]) as u32,
                sprite_meta.vertices@.len() == 4 * i + k,
                forall|j: int|
                    0 <= j < 4 * i + k ==> sprite_meta.vertices@[j] == sprite_vertex(
                        positions,
                        sprites[j / 4],
                        j % 4,
                    ),
            decreases QUAD_VERTICES - k,
        {
            let vertex = SpriteVertex {
                corner: sprite_meta.quad.corner(k),
                rect: sprite.rect,
                transform: sprite.transform,
                anchor: sprite.rect.anchor(k),
                divisor,
            };
            assert((4 * i + k) / 4 == i && (4 * i + k) % 4 == k);
            sprite_meta.vertices.push(vertex);
            k += 1;
        }
        let base: u32 = (i * QUAD_VERTICES) as u32;
        let mut m: usize = 0;
        while m < QUAD_INDICES
            invariant
                m <= QUAD_INDICES,
                i < count,
                count <= MAX_SPRITES,
                base == 4 * i,
                sprite_meta.quad == old(sprite_meta).quad,
                sprite_meta.view_bind_group == old(sprite_meta).view_bind_group,
                template == sprite_meta.quad.indices(),
                sprite_meta.vertices@.len() == 4 * i + 4,
                forall|j: int|
                    0 <= j < 4 * i + 4 ==> sprite_meta.vertices@[j] == sprite_vertex(
                        positions,
                        sprites[j / 4],
                        j % 4,
                    ),
                sprite_meta.indices@.len() == 6 * i + m,
                forall|j: int|
                    0 <= j < 6 * i + m ==> sprite_meta.indices@[j] == (4 * (j / 6) + template[j
                        % 6]) as u32,
            decreases QUAD_INDICES - m,
        {
            let offset = sprite_meta.quad.index(m);
            assert((6 * i + m) / 6 == i && (6 * i + m) % 6 == m);
            sprite_meta.indices.push(base + offset);
            m += 1;
        }
        i += 1;
    }
    proof {
        assert(extracted_sprites@ =~= with_batch_indices(sprites));
        assert(sprite_meta.vertices@ =~= batch_vertices(positions, sprites));
        assert(sprite_meta.indices@ =~= batch_indices(template, sprites.len()));
        assert forall|j: int| 0 <= j < sprite_meta.indices@.len() implies (
        #[trigger] sprite_meta.indices@[j]) < 4 * count by {
            assert(0 <= j / 6 < count);
            assert(template[j % 6] < 4);
        }
    }
    true
}

/// The sizes of the buffers: four vertices and six indices for each sprite,
/// and no index that points past the vertices.
pub proof fn lemma_batch_sizes(
    positions: Seq<Vec3>,
    indices: Seq<u32>,
    sprites: Seq<ExtractedSprite>,
)
    requires
        is_quad(positions, indices),
        sprites.len() <= MAX_SPRITES,
    ensures
        batch_vertices(positions, sprites).len() == 4 * sprites.len(),
        batch_indices(indices, sprites.len()).len() == 6 * sprites.len(),
        forall|j: int|
            0 <= j < 6 * sprites.len() ==> 0 <= #[trigger] batch_indices(indices, sprites.len())[j]
                < 4 * sprites.len(),
{
    assert forall|j: int| 0 <= j < 6 * sprites.len() implies 0 <= #[trigger] batch_indices(
        indices,
        sprites.len(),
    )[j] < 4 * sprites.len() by {
        assert(0 <= j / 6 < sprites.len());
        assert(indices[j % 6] < 4);
    }
}

/// Every sprite has the buffers to itself where its slot lies: vertices
/// `4i .. 4i + 4` are the four corners of sprite `i`, and indices
/// `6i .. 6i + 6` point at those four vertices and at no others.
pub proof fn lemma_sprite_span(
    positions: Seq<Vec3>,
    indices: Seq<u32>,
    sprites: Seq<ExtractedSprite>,
    i: int,
)
    requires
        is_quad(positions, indices),
        sprites.len() <= MAX_SPRITES,
        0 <= i < sprites.len(),
    ensures
        forall|k: int|
            0 <= k < 4 ==> #[trigger] batch_vertices(positions, sprites)[4 * i + k]
                == sprite_vertex(positions, sprites[i], k),
        forall|m: int|
            0 <= m < 6 ==> 4 * i <= #[trigger] batch_indices(indices, sprites.len())[6 * i + m] < 4
                * i + 4,
        forall|m: int|
            0 <= m < 6 ==> #[trigger] batch_indices(indices, sprites.len())[6 * i + m] == 4 * i
                + indices[m],
{
    assert forall|k: int| 0 <= k < 4 implies #[trigger] batch_vertices(positions, sprites)[4 * i
        + k] == sprite_vertex(positions, sprites[i], k) by {
        assert((4 * i + k) / 4 == i && (4 * i + k) % 4 == k);
    }
    assert forall|m: int| 0 <= m < 6 implies #[trigger] batch_indices(indices, sprites.len())[6
        * i + m] == 4 * i + indices[m] by {
        assert((6 * i + m) / 6 == i && (6 * i + m) % 6 == m);
        assert(indices[m] < 4);
    }
}

/// The texture coordinate of a vertex is a point of the sprite's rectangle
/// over one divisor: corner `k` of sprite `i` is anchored where the
/// rectangle has its `k`-th corner, and divided by the size of the atlas
/// where the sprite has one, else by the far corner of the rectangle.
pub proof fn lemma_uv_operands(positions: Seq<Vec3>, sprites: Seq<ExtractedSprite>, i: int, k: int)
    requires
        0 <= i < sprites.len(),
        0 <= k < 4,
    ensures
        batch_vertices(positions, sprites)[4 * i + k].anchor == sprites[i].rect.spec_anchor(k),
        sprites[i].atlas_size matches Some(size) ==> batch_vertices(positions, sprites)[4 * i
            + k].divisor == size,
        sprites[i].atlas_size is None ==> batch_vertices(positions, sprites)[4 * i + k].divisor
            == sprites[i].rect.max,
{
    assert((4 * i + k) / 4 == i && (4 * i + k) % 4 == k);
}

/// Preparing a frame again changes nothing. The buffers depend on the
/// template and on the sprites alone, not on what the buffers held and not
/// on the slots that the sprites carry: from the sprites as extraction gives
/// them and from the sprites as a preparation left them, the buffers come
/// out the same, and so do the slots.
pub proof fn lemma_prepare_idempotent(
    positions: Seq<Vec3>,
    indices: Seq<u32>,
    sprites: Seq<ExtractedSprite>,
)
    ensures
        batch_vertices(positions, with_batch_indices(sprites)) == batch_vertices(
            positions,
            sprites,
        ),
        batch_indices(indices, with_batch_indices(sprites).len()) == batch_indices(
            indices,
            sprites.len(),
        ),
        with_batch_indices(with_batch_indices(sprites)) == with_batch_indices(sprites),
{
    let again = with_batch_indices(sprites);
    assert forall|j: int| 0 <= j < 4 * sprites.len() implies batch_vertices(positions, again)[j]
        == batch_vertices(positions, sprites)[j] by {
        assert(0 <= j / 4 < sprites.len());
    }
    assert(batch_vertices(positions, again) =~= batch_vertices(positions, sprites));
    assert(with_batch_indices(again) =~= again);
}

} // verus!
