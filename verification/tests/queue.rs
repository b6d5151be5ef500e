use sprite_render::extract::{Entity, ExtractedSprite, ImageHandle};
use sprite_render::math::{Mat4, Rect, Vec2};
use sprite_render::pipeline::{
    BindGroupEntry, BindGroupLayoutId, BindingResource, CachedPipelineId, SpritePipeline,
    ViewBinding,
};
use sprite_render::prepare::SpriteMeta;
use sprite_render::queue::{
    queue_sprites, BindGroupId, DrawFunctionId, ImageBindGroups, RenderPhase, Transparent2d,
};

fn sprite(entity: u64, image: u64) -> ExtractedSprite {
    ExtractedSprite {
        entity: Entity(entity),
        transform: Mat4 { cols: [0; 16] },
        rect: Rect { min: Vec2 { x: 0, y: 0 }, max: Vec2 { x: 0, y: 0 } },
        handle: ImageHandle(image),
        atlas_size: None,
        batch_index: 0,
    }
}

fn pipeline() -> SpritePipeline {
    SpritePipeline::new(BindGroupLayoutId(10), BindGroupLayoutId(11), CachedPipelineId(5))
}

fn phases(count: usize) -> Vec<RenderPhase> {
    (0..count).map(|_| RenderPhase { items: Vec::new() }).collect()
}

fn item(entity: u64, image: u64) -> Transparent2d {
    Transparent2d {
        draw_function: DrawFunctionId(3),
        pipeline: CachedPipelineId(5),
        entity: Entity(entity),
        sort_key: ImageHandle(image),
    }
}

#[test]
fn new_cache_is_empty() {
    let cache = ImageBindGroups::new();
    assert_eq!(cache.len(), 0);
    assert_eq!(cache.get(ImageHandle(0)), None);
    let cache = ImageBindGroups::default();
    assert_eq!(cache.len(), 0);
    assert_eq!(cache.get(ImageHandle(7)), None);
}

#[test]
fn cache_numbers_images_in_the_order_they_come() {
    let mut cache = ImageBindGroups::new();
    assert_eq!(cache.get_or_insert(ImageHandle(50)), (BindGroupId(0), true));
    assert_eq!(cache.get_or_insert(ImageHandle(20)), (BindGroupId(1), true));
    assert_eq!(cache.get_or_insert(ImageHandle(50)), (BindGroupId(0), false));
    assert_eq!(cache.get_or_insert(ImageHandle(0)), (BindGroupId(2), true));
    assert_eq!(cache.len(), 3);
    assert_eq!(cache.get(ImageHandle(50)), Some(BindGroupId(0)));
    assert_eq!(cache.get(ImageHandle(20)), Some(BindGroupId(1)));
    assert_eq!(cache.get(ImageHandle(0)), Some(BindGroupId(2)));
    assert_eq!(cache.get(ImageHandle(1)), None);
}

#[test]
fn two_sprites_of_one_texture_share_one_bind_group() {
    let mut meta = SpriteMeta::default();
    let mut cache = ImageBindGroups::new();
    let mut views = phases(1);
    let sprites = vec![sprite(1, 7), sprite(2, 7)];
    let created = queue_sprites(
        DrawFunctionId(3),
        &mut meta,
        Some(ViewBinding(1)),
        &pipeline(),
        &mut cache,
        &sprites,
        &mut views,
    );
    assert_eq!(created.len(), 1);
    assert_eq!(cache.len(), 1);
    assert_eq!(cache.get(ImageHandle(7)), Some(BindGroupId(0)));
    assert_eq!(views[0].items, vec![item(1, 7), item(2, 7)]);
}

#[test]
fn new_bind_groups_are_described_in_the_order_of_their_numbers() {
    let mut meta = SpriteMeta::default();
    let mut cache = ImageBindGroups::new();
    cache.get_or_insert(ImageHandle(8));
    let mut views = phases(2);
    let sprites = vec![sprite(1, 9), sprite(2, 8), sprite(3, 4), sprite(4, 9), sprite(5, 4)];
    let created = queue_sprites(
        DrawFunctionId(3),
        &mut meta,
        Some(ViewBinding(1)),
        &pipeline(),
        &mut cache,
        &sprites,
        &mut views,
    );
    assert_eq!(created.len(), 2);
    assert_eq!(created[0].label, "sprite_material_bind_group");
    assert_eq!(created[0].layout, BindGroupLayoutId(11));
    assert_eq!(
        created[0].entries,
        vec![
            BindGroupEntry { binding: 0, resource: BindingResource::TextureView(ImageHandle(9)) },
            BindGroupEntry { binding: 1, resource: BindingResource::Sampler(ImageHandle(9)) },
        ]
    );
    assert_eq!(
        created[1].entries,
        vec![
            BindGroupEntry { binding: 0, resource: BindingResource::TextureView(ImageHandle(4)) },
            BindGroupEntry { binding: 1, resource: BindingResource::Sampler(ImageHandle(4)) },
        ]
    );
    assert_eq!(cache.len(), 3);
    assert_eq!(cache.get(ImageHandle(8)), Some(BindGroupId(0)));
    assert_eq!(cache.get(ImageHandle(9)), Some(BindGroupId(1)));
    assert_eq!(cache.get(ImageHandle(4)), Some(BindGroupId(2)));
}

#[test]
fn cached_texture_keeps_its_bind_group_across_frames() {
    let mut meta = SpriteMeta::default();
    let mut cache = ImageBindGroups::new();
    let sprites = vec![sprite(1, 7), sprite(2, 3)];
    let mut views = phases(1);
    let first = queue_sprites(
        DrawFunctionId(3),
        &mut meta,
        Some(ViewBinding(1)),
        &pipeline(),
        &mut cache,
        &sprites,
        &mut views,
    );
    assert_eq!(first.len(), 2);
    let mut views = phases(1);
    let sprites = vec![sprite(2, 3), sprite(5, 6), sprite(1, 7)];
    let second = queue_sprites(
        DrawFunctionId(3),
        &mut meta,
        Some(ViewBinding(1)),
        &pipeline(),
        &mut cache,
        &sprites,
        &mut views,
    );
    assert_eq!(second.len(), 1);
    assert_eq!(
        second[0].entries[0],
        BindGroupEntry { binding: 0, resource: BindingResource::TextureView(ImageHandle(6)) }
    );
    assert_eq!(cache.get(ImageHandle(7)), Some(BindGroupId(0)));
    assert_eq!(cache.get(ImageHandle(3)), Some(BindGroupId(1)));
    assert_eq!(cache.get(ImageHandle(6)), Some(BindGroupId(2)));
    assert_eq!(cache.len(), 3);
}

#[test]
fn every_view_gets_one_item_for_each_sprite() {
    let mut meta = SpriteMeta::default();
    let mut cache = ImageBindGroups::new();
    let mut views = phases(3);
    views[1].items.push(item(99, 98));
    let sprites = vec![sprite(1, 7), sprite(2, 3), sprite(3, 7)];
    queue_sprites(
        DrawFunctionId(3),
        &mut meta,
        Some(ViewBinding(1)),
        &pipeline(),
        &mut cache,
        &sprites,
        &mut views,
    );
    assert_eq!(views.len(), 3);
    assert_eq!(views[0].items, vec![item(1, 7), item(2, 3), item(3, 7)]);
    assert_eq!(views[1].items, vec![item(99, 98), item(1, 7), item(2, 3), item(3, 7)]);
    assert_eq!(views[2].items, vec![item(1, 7), item(2, 3), item(3, 7)]);
}

#[test]
fn queuing_describes_the_bind_group_of_the_views() {
    let mut meta = SpriteMeta::default();
    let mut cache = ImageBindGroups::new();
    let mut views = phases(0);
    queue_sprites(
        DrawFunctionId(3),
        &mut meta,
        Some(ViewBinding(42)),
        &pipeline(),
        &mut cache,
        &Vec::new(),
        &mut views,
    );
    let group = meta.view_bind_group.as_ref().unwrap();
    assert_eq!(group.label, "sprite_view_bind_group");
    assert_eq!(group.layout, BindGroupLayoutId(10));
    assert_eq!(
        group.entries,
        vec![BindGroupEntry { binding: 0, resource: BindingResource::ViewUniforms(ViewBinding(42)) }]
    );
}

#[test]
fn without_view_uniforms_nothing_is_queued() {
    let mut meta = SpriteMeta::default();
    let mut cache = ImageBindGroups::new();
    let mut views = phases(2);
    let created = queue_sprites(
        DrawFunctionId(3),
        &mut meta,
        None,
        &pipeline(),
        &mut cache,
        &vec![sprite(1, 7)],
        &mut views,
    );
    assert!(created.is_empty());
    assert_eq!(cache.len(), 0);
    assert!(views.iter().all(|phase| phase.items.is_empty()));
    assert!(meta.view_bind_group.is_none());
}

#[test]
fn without_views_no_bind_group_is_asked_for() {
    let mut meta = SpriteMeta::default();
    let mut cache = ImageBindGroups::new();
    let mut views = phases(0);
    let created = queue_sprites(
        DrawFunctionId(3),
        &mut meta,
        Some(ViewBinding(1)),
        &pipeline(),
        &mut cache,
        &vec![sprite(1, 7)],
        &mut views,
    );
    assert!(created.is_empty());
    assert_eq!(cache.len(), 0);
    assert!(meta.view_bind_group.is_some());
}

#[test]
fn frame_without_sprites_queues_no_items() {
    let mut meta = SpriteMeta::default();
    let mut cache = ImageBindGroups::new();
    let mut views = phases(2);
    let created = queue_sprites(
        DrawFunctionId(3),
        &mut meta,
        Some(ViewBinding(1)),
        &pipeline(),
        &mut cache,
        &Vec::new(),
        &mut views,
    );
    assert!(created.is_empty());
    assert_eq!(cache.len(), 0);
    assert!(views.iter().all(|phase| phase.items.is_empty()));
}

#[test]
fn phase_keeps_items_in_the_order_they_were_added() {
    let mut phase = RenderPhase { items: Vec::new() };
    phase.add(item(2, 1));
    phase.add(item(1, 1));
    assert_eq!(phase.items, vec![item(2, 1), item(1, 1)]);
}
