use sprite_render::extract::{
    extract_atlases, extract_sprites, AtlasSpriteSource, Entity, ExtractedSprite, ImageHandle,
    SpriteSource, TextureAtlas,
};
use sprite_render::math::{Mat4, Rect, Vec2, Vec3};
use sprite_render::prepare::{prepare_sprites, QuadMesh, SpriteMeta, SpriteVertex, MAX_SPRITES};

fn vec2(x: f32, y: f32) -> Vec2 {
    Vec2 { x: x.to_bits(), y: y.to_bits() }
}

fn vec3(x: f32, y: f32, z: f32) -> Vec3 {
    Vec3 { x: x.to_bits(), y: y.to_bits(), z: z.to_bits() }
}

fn mat4(m: bevy_math::Mat4) -> Mat4 {
    Mat4 { cols: m.to_cols_array().map(f32::to_bits) }
}

fn sprite(entity: u64, image: u64, rect: Rect, atlas_size: Option<Vec2>) -> ExtractedSprite {
    ExtractedSprite {
        entity: Entity(entity),
        transform: mat4(bevy_math::Mat4::IDENTITY),
        rect,
        handle: ImageHandle(image),
        atlas_size,
        batch_index: 0,
    }
}

fn square(side: f32) -> Rect {
    Rect { min: vec2(0.0, 0.0), max: vec2(side, side) }
}

/// Evaluates a vertex the way the host does.
fn evaluate(v: &SpriteVertex) -> ([f32; 3], [f32; 2]) {
    let corner = bevy_math::Vec3::new(
        f32::from_bits(v.corner.x),
        f32::from_bits(v.corner.y),
        f32::from_bits(v.corner.z),
    );
    let width = f32::from_bits(v.rect.max.x) - f32::from_bits(v.rect.min.x);
    let height = f32::from_bits(v.rect.max.y) - f32::from_bits(v.rect.min.y);
    let transform = bevy_math::Mat4::from_cols_array(&v.transform.cols.map(f32::from_bits));
    let scaled = corner * bevy_math::Vec3::new(width, height, 1.0);
    let position = (transform * scaled.extend(1.0)).truncate();
    let anchor = bevy_math::Vec2::new(f32::from_bits(v.anchor.x), f32::from_bits(v.anchor.y));
    let divisor = bevy_math::Vec2::new(f32::from_bits(v.divisor.x), f32::from_bits(v.divisor.y));
    (position.to_array(), (anchor / divisor).to_array())
}

#[test]
fn plain_sprite_of_64_pixels_fills_a_centred_square() {
    let mut sprites = extract_sprites(&vec![SpriteSource {
        entity: Entity(1),
        transform: mat4(bevy_math::Mat4::IDENTITY),
        custom_size: None,
        handle: ImageHandle(3),
        image_size: Some(vec2(64.0, 64.0)),
    }]);
    assert_eq!(sprites[0].rect, square(64.0));
    let mut meta = SpriteMeta::default();
    assert!(prepare_sprites(&mut meta, &mut sprites));
    assert_eq!(meta.vertices.len(), 4);
    let evaluated: Vec<([f32; 3], [f32; 2])> = meta.vertices.iter().map(evaluate).collect();
    assert_eq!(
        evaluated,
        vec![
            ([-32.0, -32.0, 0.0], [0.0, 1.0]),
            ([-32.0, 32.0, 0.0], [0.0, 0.0]),
            ([32.0, 32.0, 0.0], [1.0, 0.0]),
            ([32.0, -32.0, 0.0], [1.0, 1.0]),
        ]
    );
    assert_eq!(meta.indices, vec![0, 2, 1, 0, 3, 2]);
}

#[test]
fn atlas_sprite_is_normalised_by_the_size_of_the_atlas() {
    let atlas = TextureAtlas {
        texture: ImageHandle(40),
        size: vec2(256.0, 256.0),
        textures: vec![Rect { min: vec2(32.0, 32.0), max: vec2(96.0, 96.0) }],
    };
    let mut sprites = extract_atlases(&vec![AtlasSpriteSource {
        entity: Entity(1),
        transform: mat4(bevy_math::Mat4::IDENTITY),
        index: 0,
        atlas: Some(&atlas),
    }]);
    let mut meta = SpriteMeta::default();
    assert!(prepare_sprites(&mut meta, &mut sprites));
    let uvs: Vec<[f32; 2]> = meta.vertices.iter().map(|v| evaluate(v).1).collect();
    assert_eq!(uvs[1], [0.125, 0.125]);
    assert_eq!(uvs, vec![[0.125, 0.375], [0.125, 0.125], [0.375, 0.125], [0.375, 0.375]]);
    let positions: Vec<[f32; 3]> = meta.vertices.iter().map(|v| evaluate(v).0).collect();
    assert_eq!(
        positions,
        vec![[-32.0, -32.0, 0.0], [-32.0, 32.0, 0.0], [32.0, 32.0, 0.0], [32.0, -32.0, 0.0]]
    );
}

#[test]
fn vertex_holds_the_operands_of_its_sprite() {
    let rect = Rect { min: vec2(1.0, 2.0), max: vec2(5.0, 8.0) };
    let transform = mat4(bevy_math::Mat4::from_translation(bevy_math::Vec3::new(10.0, 20.0, 3.0)));
    let mut sprites = vec![ExtractedSprite {
        entity: Entity(1),
        transform,
        rect,
        handle: ImageHandle(1),
        atlas_size: Some(vec2(16.0, 32.0)),
        batch_index: 0,
    }];
    let mut meta = SpriteMeta::default();
    prepare_sprites(&mut meta, &mut sprites);
    assert_eq!(
        meta.vertices[0],
        SpriteVertex {
            corner: vec3(-0.5, -0.5, 0.0),
            rect,
            transform,
            anchor: vec2(1.0, 8.0),
            divisor: vec2(16.0, 32.0),
        }
    );
    assert_eq!(meta.vertices[1].anchor, vec2(1.0, 2.0));
    assert_eq!(meta.vertices[2].anchor, vec2(5.0, 2.0));
    assert_eq!(meta.vertices[3].anchor, vec2(5.0, 8.0));
    assert_eq!(meta.vertices[1].corner, vec3(-0.5, 0.5, 0.0));
    assert_eq!(meta.vertices[2].corner, vec3(0.5, 0.5, 0.0));
    assert_eq!(meta.vertices[3].corner, vec3(0.5, -0.5, 0.0));
    let (position, uv) = evaluate(&meta.vertices[2]);
    assert_eq!(position, [12.0, 23.0, 3.0]);
    assert_eq!(uv, [0.3125, 0.0625]);
}

#[test]
fn plain_sprite_is_normalised_by_its_own_rectangle() {
    let mut sprites = extract_sprites(&vec![SpriteSource {
        entity: Entity(1),
        transform: mat4(bevy_math::Mat4::IDENTITY),
        custom_size: Some(vec2(10.0, 20.0)),
        handle: ImageHandle(3),
        image_size: Some(vec2(64.0, 64.0)),
    }]);
    let mut meta = SpriteMeta::default();
    prepare_sprites(&mut meta, &mut sprites);
    for vertex in &meta.vertices {
        assert_eq!(vertex.divisor, vec2(10.0, 20.0));
        let (_, uv) = evaluate(vertex);
        assert!((0.0..=1.0).contains(&uv[0]) && (0.0..=1.0).contains(&uv[1]));
    }
    assert_eq!(evaluate(&meta.vertices[0]).0, [-5.0, -10.0, 0.0]);
    assert_eq!(evaluate(&meta.vertices[2]).0, [5.0, 10.0, 0.0]);
}

#[test]
fn three_sprites_fill_twelve_vertices_and_eighteen_indices() {
    let mut sprites = vec![
        sprite(1, 1, square(8.0), None),
        sprite(2, 2, square(16.0), None),
        sprite(3, 1, square(32.0), None),
    ];
    let mut meta = SpriteMeta::default();
    assert!(prepare_sprites(&mut meta, &mut sprites));
    assert_eq!(meta.vertices.len(), 12);
    assert_eq!(meta.indices.len(), 18);
    assert!(meta.indices.iter().all(|&index| index < 12));
    assert_eq!(
        meta.indices,
        vec![0, 2, 1, 0, 3, 2, 4, 6, 5, 4, 7, 6, 8, 10, 9, 8, 11, 10]
    );
    for (j, vertex) in meta.vertices.iter().enumerate() {
        assert_eq!(vertex.rect, sprites[j / 4].rect);
    }
}

#[test]
fn every_sprite_learns_its_place_in_the_list() {
    let mut sprites: Vec<ExtractedSprite> =
        (0..5).map(|i| sprite(100 - i, i, square(4.0), None)).collect();
    sprites[3].batch_index = 77;
    let mut meta = SpriteMeta::default();
    prepare_sprites(&mut meta, &mut sprites);
    for (i, sprite) in sprites.iter().enumerate() {
        assert_eq!(sprite.batch_index, i);
        assert_eq!(sprite.entity, Entity(100 - i as u64));
    }
}

#[test]
fn preparing_twice_gives_the_same_buffers() {
    let sources = vec![
        SpriteSource {
            entity: Entity(1),
            transform: mat4(bevy_math::Mat4::from_rotation_z(0.5)),
            custom_size: None,
            handle: ImageHandle(3),
            image_size: Some(vec2(64.0, 48.0)),
        },
        SpriteSource {
            entity: Entity(2),
            transform: mat4(bevy_math::Mat4::IDENTITY),
            custom_size: Some(vec2(3.0, 5.0)),
            handle: ImageHandle(4),
            image_size: Some(vec2(8.0, 8.0)),
        },
    ];
    let mut meta = SpriteMeta::default();
    let mut first = extract_sprites(&sources);
    prepare_sprites(&mut meta, &mut first);
    let vertices = meta.vertices.clone();
    let indices = meta.indices.clone();
    let mut second = extract_sprites(&sources);
    prepare_sprites(&mut meta, &mut second);
    assert_eq!(meta.vertices, vertices);
    assert_eq!(meta.indices, indices);
    assert_eq!(first, second);
    prepare_sprites(&mut meta, &mut second);
    assert_eq!(meta.vertices, vertices);
    assert_eq!(meta.indices, indices);
    let bytes = |vertices: &Vec<SpriteVertex>| -> Vec<u8> {
        vertices
            .iter()
            .flat_map(|v| {
                let (position, uv) = evaluate(v);
                position.into_iter().chain(uv).flat_map(f32::to_ne_bytes).collect::<Vec<u8>>()
            })
            .collect()
    };
    assert_eq!(bytes(&meta.vertices), bytes(&vertices));
    assert_eq!(bytes(&vertices).len(), 20 * 8);
}

#[test]
fn frame_without_sprites_leaves_the_buffers_alone() {
    let mut meta = SpriteMeta::default();
    let mut none: Vec<ExtractedSprite> = Vec::new();
    assert!(!prepare_sprites(&mut meta, &mut none));
    assert!(meta.vertices.is_empty());
    assert!(meta.indices.is_empty());
    let mut one = vec![sprite(1, 1, square(8.0), None)];
    assert!(prepare_sprites(&mut meta, &mut one));
    let vertices = meta.vertices.clone();
    assert!(!prepare_sprites(&mut meta, &mut none));
    assert_eq!(meta.vertices, vertices);
    assert_eq!(meta.indices, vec![0, 2, 1, 0, 3, 2]);
}

#[test]
fn smaller_frame_discards_the_larger_one() {
    let mut meta = SpriteMeta::default();
    let mut many = vec![sprite(1, 1, square(8.0), None), sprite(2, 1, square(9.0), None)];
    prepare_sprites(&mut meta, &mut many);
    assert_eq!(meta.vertices.len(), 8);
    let mut few = vec![sprite(3, 2, square(5.0), None)];
    prepare_sprites(&mut meta, &mut few);
    assert_eq!(meta.vertices.len(), 4);
    assert_eq!(meta.indices.len(), 6);
    assert_eq!(meta.vertices[0].rect, square(5.0));
}

#[test]
fn unit_quad_is_centred_and_wound_from_the_bottom_left() {
    let quad = QuadMesh::unit();
    let corners: Vec<Vec3> = (0..4).map(|k| quad.corner(k)).collect();
    assert_eq!(
        corners,
        vec![vec3(-0.5, -0.5, 0.0), vec3(-0.5, 0.5, 0.0), vec3(0.5, 0.5, 0.0), vec3(0.5, -0.5, 0.0)]
    );
    let indices: Vec<u32> = (0..6).map(|j| quad.index(j)).collect();
    assert_eq!(indices, vec![0, 2, 1, 0, 3, 2]);
    let meta = SpriteMeta::default();
    assert_eq!(meta.quad.corner(2), vec3(0.5, 0.5, 0.0));
    assert!(meta.view_bind_group.is_none());
}

#[test]
fn template_must_be_a_quad() {
    let corners = vec![vec3(0.0, 0.0, 0.0), vec3(0.0, 1.0, 0.0), vec3(1.0, 1.0, 0.0), vec3(1.0, 0.0, 0.0)];
    assert!(QuadMesh::new(corners.clone(), vec![0, 1, 2, 0, 2, 3]).is_some());
    assert!(QuadMesh::new(corners.clone(), vec![0, 1, 2, 0, 2]).is_none());
    assert!(QuadMesh::new(corners.clone(), vec![0, 1, 2, 0, 2, 3, 0]).is_none());
    assert!(QuadMesh::new(corners.clone(), vec![0, 1, 2, 0, 2, 4]).is_none());
    assert!(QuadMesh::new(corners[..3].to_vec(), vec![0, 1, 2, 0, 1, 2]).is_none());
    assert!(QuadMesh::new(Vec::new(), Vec::new()).is_none());
}

#[test]
fn custom_template_is_stamped_into_every_sprite() {
    let corners = vec![vec3(0.0, 0.0, 0.0), vec3(0.0, 1.0, 0.0), vec3(1.0, 1.0, 0.0), vec3(1.0, 0.0, 0.0)];
    let quad = QuadMesh::new(corners, vec![0, 1, 2, 0, 2, 3]).unwrap();
    let mut meta = SpriteMeta::new(quad);
    let mut sprites = vec![sprite(1, 1, square(2.0), None), sprite(2, 1, square(2.0), None)];
    prepare_sprites(&mut meta, &mut sprites);
    assert_eq!(meta.indices, vec![0, 1, 2, 0, 2, 3, 4, 5, 6, 4, 6, 7]);
    assert_eq!(meta.vertices[6].corner, vec3(1.0, 1.0, 0.0));
}

#[test]
fn frame_limit_counts_six_indices_in_32_bits() {
    assert_eq!(MAX_SPRITES, (u32::MAX / 6) as usize);
}
