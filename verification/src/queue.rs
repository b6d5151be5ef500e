//! Queuing: one draw item for every sprite in every view, and a bind group
//! for every texture that the frame uses.

use crate::extract::{Entity, ExtractedSprite, ImageHandle};
use crate::pipeline::{
    BindGroupDescriptor, BindGroupEntry, BindGroupLayoutId, BindingResource, CachedPipelineId,
    SpritePipeline, ViewBinding,
};
use crate::prepare::SpriteMeta;
use bevy_utils::HashMap;
use vstd::prelude::*;

verus! {

/// Names a draw function of the host's phase framework.
#[derive(Clone, Copy, Debug, PartialEq, Eq, Structural)]
pub struct DrawFunctionId(pub usize);

/// Names a bind group of a texture: the position of the group among all
/// that were ever asked for, in the order in which they were asked for.
#[derive(Clone, Copy, Debug, PartialEq, Eq, Structural)]
pub struct BindGroupId(pub usize);

/// One item of a transparency phase: draw this entity with this pipeline.
/// Items are sorted by texture, so that sprites of one texture lie together.
#[derive(Clone, Copy, Debug, PartialEq, Eq, Structural)]
pub struct Transparent2d {
    pub draw_function: DrawFunctionId,
    pub pipeline: CachedPipelineId,
    pub entity: Entity,
    pub sort_key: ImageHandle,
}

/// The transparency phase of one view: the items queued for it so far.
#[derive(Debug)]
pub struct RenderPhase {
    pub items: Vec<Transparent2d>,
}

impl RenderPhase {
    /// Queues one more item, behind those already there.
    pub fn add(&mut self, item: Transparent2d)
        ensures
            final(self).items@ == old(self).items@.push(item),
    {
        self.items.push(item);
    }
}

/// `ahash::RandomState`, the hasher that `bevy_utils::HashMap` hashes its
/// keys with. The library carries it inside the map and claims nothing of
/// it.
#[verifier::external_type_specification]
#[verifier::external_body]
pub struct ExRandomState(ahash::RandomState);

/// The map behind the cache: from the number of an image to the number of
/// its bind group.
type Slots = HashMap<u64, usize>;

/// `HashMap::default`, for `bevy_utils::HashMap`, which is the `HashMap` of
/// std over the hasher of `ahash`. Believed, not proved: a new map holds
/// nothing.
#[verifier::external_body]
fn map_new() -> (table: Slots)
    ensures
        table@ == (Map::<u64, usize>::empty()),
{
    HashMap::default()
}

/// `HashMap::get`. Believed, not proved: the result is the value stored
/// under `key`, if there is one, and nothing else.
#[verifier::external_body]
fn map_get(table: &Slots, key: u64) -> (value: Option<usize>)
    ensures
        value == (if table@.contains_key(key) {
            Some(table@[key])
        } else {
            None
        }),
{
    match table.get(&key) {
        Some(value) => Some(*value),
        None => None,
    }
}

/// `HashMap::insert`. Believed, not proved: afterwards `key` maps to
/// `value`, and every other key to what it mapped to before.
#[verifier::external_body]
fn map_insert(table: &mut Slots, key: u64, value: usize)
    ensures
        final(table)@ == old(table)@.insert(key, value),
{
    table.insert(key, value);
}

/// `HashMap::len`. Believed, not proved: the result is the number of keys.
#[verifier::external_body]
fn map_len(table: &Slots) -> (len: usize)
    requires
        table@.dom().finite(),
    ensures
        len == table@.dom().len(),
{
    table.len()
}

/// The bind groups of the textures, by image. Entries are added and never
/// taken away or changed: an image keeps the bind group it once got.
pub struct ImageBindGroups {
    values: Slots,
}

impl View for ImageBindGroups {
    type V = Map<ImageHandle, BindGroupId>;

    closed spec fn view(&self) -> Map<ImageHandle, BindGroupId> {
        Map::new(
            |image: ImageHandle| self.values@.contains_key(image.0),
            |image: ImageHandle| BindGroupId(self.values@[image.0]),
        )
    }
}

/// Whether a cache numbers its bind groups without gap or repetition: with
/// `n` entries, the groups are `0 .. n`, one for each image.
pub open spec fn is_numbered(cache: Map<ImageHandle, BindGroupId>) -> bool {
    &&& cache.dom().finite()
    &&& forall|image: ImageHandle| #[trigger]
        cache.contains_key(image) ==> cache[image].0 < cache.dom().len()
    &&& forall|a: ImageHandle, b: ImageHandle|
        cache.contains_key(a) && cache.contains_key(b) && #[trigger] cache[a] == #[trigger] cache[b]
            ==> a == b
}

impl ImageBindGroups {
    /// The cache holds finitely many entries and numbers them without gap
    /// or repetition.
    pub closed spec fn wf(self) -> bool {
        &&& self.values@.dom().finite()
        &&& forall|key: u64| #[trigger]
            self.values@.contains_key(key) ==> self.values@[key] < self.values@.dom().len()
        &&& forall|a: u64, b: u64|
            self.values@.contains_key(a) && self.values@.contains_key(b) && #[trigger] self.values@[a]
                == #[trigger] self.values@[b] ==> a == b
    }

    /// The view has an image for each key of the map, and no more.
    proof fn lemma_view(self)
        requires
            self.wf(),
        ensures
            self@.dom().finite(),
            self@.dom().len() == self.values@.dom().len(),
    {
        let keys = self.values@.dom();
        let images = self@.dom();
        let wrap = |key: u64| ImageHandle(key);
        assert(keys.map(wrap) =~= images) by {
            assert forall|image: ImageHandle| images.contains(image) implies keys.map(
                wrap,
            ).contains(image) by {
                assert(keys.contains(image.0) && wrap(image.0) == image);
            }
        }
        vstd::set_lib::lemma_map_size(keys, images, wrap);
    }

    /// A well-formed cache is numbered.
    pub proof fn lemma_wf(self)
        requires
            self.wf(),
        ensures
            is_numbered(self@),
    {
        self.lemma_view();
        assert forall|a: ImageHandle, b: ImageHandle|
            self@.contains_key(a) && self@.contains_key(b) && #[trigger] self@[a]
                == #[trigger] self@[b] implies a == b by {
            assert(self.values@[a.0] == self.values@[b.0]);
        }
    }

    /// A cache without entries.
    pub fn new() -> (cache: ImageBindGroups)
        ensures
            cache.wf(),
            cache@ == Map::<ImageHandle, BindGroupId>::empty(),
    {
        let cache = ImageBindGroups { values: map_new() };
        assert(cache@ =~= Map::<ImageHandle, BindGroupId>::empty());
        cache
    }

    /// The number of entries.
    pub fn len(&self) -> (len: usize)
        requires
            self.wf(),
        ensures
            len == self@.dom().len(),
    {
        proof {
            self.lemma_view();
        }
        map_len(&self.values)
    }

    /// The bind group of `image`, if it has one.
    pub fn get(&self, image: ImageHandle) -> (group: Option<BindGroupId>)
        ensures
            group == (if self@.contains_key(image) {
                Some(self@[image])
            } else {
                None
            }),
    {
        match map_get(&self.values, image.0) {
            Some(slot) => Some(BindGroupId(slot)),
            None => None,
        }
    }

    /// Looks `image` up and, where it has no bind group yet, gives it the
    /// next one. The flag tells whether the group is new, and so has still
    /// to be created.
    pub fn get_or_insert(&mut self, image: ImageHandle) -> (found: (BindGroupId, bool))
        requires
            old(self).wf(),
        ensures
            final(self).wf(),
            found.1 == !old(self)@.contains_key(image),
            final(self)@ == insert_missing(old(self)@, image),
            final(self)@.contains_key(image),
            found.0 == final(self)@[image],
    {
        proof {
            self.lemma_view();
        }
        match map_get(&self.values, image.0) {
            Some(slot) => {
                assert(self@ =~= insert_missing(self@, image));
                (BindGroupId(slot), false)
            },
            None => {
                let slot = map_len(&self.values);
                let ghost before = *self;
                map_insert(&mut self.values, image.0, slot);
                proof {
                    assert(self.values@.dom() =~= before.values@.dom().insert(image.0));
                    assert(self@ =~= insert_missing(before@, image));
                }
                (BindGroupId(slot), true)
            },
        }
    }
}

impl Default for ImageBindGroups {
    /// A cache without entries.
    fn default() -> (cache: ImageBindGroups)
        ensures
            cache.wf(),
            cache@ == Map::<ImageHandle, BindGroupId>::empty(),
    {
        ImageBindGroups::new()
    }
}

/// A cache after `image` was asked for: unchanged where the image has a bind
/// group, else grown by the image, under the next free number.
pub open spec fn insert_missing(cache: Map<ImageHandle, BindGroupId>, image: ImageHandle) -> Map<
    ImageHandle,
    BindGroupId,
> {
    if cache.contains_key(image) {
        cache
    } else {
        cache.insert(image, BindGroupId(cache.dom().len() as usize))
    }
}

/// A cache after the images of `sprites` were asked for, one after the
/// other.
pub open spec fn cache_after(cache: Map<ImageHandle, BindGroupId>, sprites: Seq<ExtractedSprite>)
    -> Map<ImageHandle, BindGroupId>
    decreases sprites.len(),
{
    if sprites.len() == 0 {
        cache
    } else {
        insert_missing(cache_after(cache, sprites.drop_last()), sprites.last().handle)
    }
}

/// The images of `sprites` that are not among `cached`, each once, in the
/// order in which the sprites first use them.
pub open spec fn missing_images(cached: Set<ImageHandle>, sprites: Seq<ExtractedSprite>) -> Seq<
    ImageHandle,
>
    decreases sprites.len(),
{
    if sprites.len() == 0 {
        Seq::empty()
    } else {
        let before = missing_images(cached, sprites.drop_last());
        let image = sprites.last().handle;
        if cached.contains(image) || before.contains(image) {
            before
        } else {
            before.push(image)
        }
    }
}

/// The items that a list of sprites puts into a phase: one for each sprite,
/// in the order of the list, sorted by the sprite's image.
pub open spec fn phase_items(
    draw_function: DrawFunctionId,
    pipeline: CachedPipelineId,
    sprites: Seq<ExtractedSprite>,
) -> Seq<Transparent2d> {
    Seq::new(
        sprites.len(),
        |i: int|
            Transparent2d {
                draw_function,
                pipeline,
                entity: sprites[i].entity,
                sort_key: sprites[i].handle,
            },
    )
}

/// The bind group of the views: the view uniforms at binding 0.
pub open spec fn is_view_bind_group(
    d: BindGroupDescriptor,
    layout: BindGroupLayoutId,
    binding: ViewBinding,
) -> bool {
    &&& d.label@ == "sprite_view_bind_group"@
    &&& d.layout == layout
    &&& d.entries@ =~= seq![
        BindGroupEntry { binding: 0, resource: BindingResource::ViewUniforms(binding) },
    ]
}

/// The bind group of an image: its texture at binding 0, its sampler at
/// binding 1.
pub open spec fn is_material_bind_group(
    d: BindGroupDescriptor,
    layout: BindGroupLayoutId,
    image: ImageHandle,
) -> bool {
    &&& d.label@ == "sprite_material_bind_group"@
    &&& d.layout == layout
    &&& d.entries@ =~= seq![
        BindGroupEntry { binding: 0, resource: BindingResource::TextureView(image) },
        BindGroupEntry { binding: 1, resource: BindingResource::Sampler(image) },
    ]
}

/// The descriptor of the bind group of the views.
fn view_bind_group(layout: BindGroupLayoutId, binding: ViewBinding) -> (d: BindGroupDescriptor)
    ensures
        is_view_bind_group(d, layout, binding),
{
    let mut entries: Vec<BindGroupEntry> = Vec::new();
    entries.push(BindGroupEntry { binding: 0, resource: BindingResource::ViewUniforms(binding) });
    BindGroupDescriptor { label: "sprite_view_bind_group", layout, entries }
}

/// The descriptor of the bind group of an image.
fn material_bind_group(layout: BindGroupLayoutId, image: ImageHandle) -> (d: BindGroupDescriptor)
    ensures
        is_material_bind_group(d, layout, image),
{
    let mut entries: Vec<BindGroupEntry> = Vec::new();
    entries.push(BindGroupEntry { binding: 0, resource: BindingResource::TextureView(image) });
    entries.push(BindGroupEntry { binding: 1, resource: BindingResource::Sampler(image) });
    BindGroupDescriptor { label: "sprite_material_bind_group", layout, entries }
}

/// Queues every sprite into the phase of one view.
fn queue_into(
    phase: &mut RenderPhase,
    draw_function: DrawFunctionId,
    pipeline: CachedPipelineId,
    sprites: &Vec<ExtractedSprite>,
)
    ensures
        final(phase).items@ == old(phase).items@ + phase_items(draw_function, pipeline, sprites@),
{
    let ghost before = phase.items@;
    let mut i: usize = 0;
    while i < sprites.len()
        invariant
            i <= sprites.len(),
            phase.items@ == before + phase_items(draw_function, pipeline, sprites@.take(i as int)),
        decreases sprites.len() - i,
    {
        let sprite = sprites[i];
        phase.add(
            Transparent2d {
                draw_function,
                pipeline,
                entity: sprite.entity,
                sort_key: sprite.handle,
            },
        );
        assert(phase.items@ =~= before + phase_items(
            draw_function,
            pipeline,
            sprites@.take(i + 1),
        ));
        i += 1;
    }
    assert(sprites@.take(sprites.len() as int) =~= sprites@);
}

/// Queues the sprites of the frame for drawing.
///
/// Without a binding of the view uniforms there is nothing to draw against,
/// and nothing happens. With one, the bind group of the views is described
/// anew, and every view gets one item for each sprite. If there is a view at
/// all, every image that the sprites use gets a bind group, unless it has
/// one: the result describes the groups that are new, in the order of their
/// numbers, for the host to create.
pub fn queue_sprites(
    draw_function: DrawFunctionId,
    sprite_meta: &mut SpriteMeta,
    view_binding: Option<ViewBinding>,
    sprite_pipeline: &SpritePipeline,
    image_bind_groups: &mut ImageBindGroups,
    extracted_sprites: &Vec<ExtractedSprite>,
    views: &mut Vec<RenderPhase>,
) -> (created: Vec<BindGroupDescriptor>)
    requires
        old(image_bind_groups).wf(),
    ensures
        final(image_bind_groups).wf(),
        final(sprite_meta).vertices == old(sprite_meta).vertices,
        final(sprite_meta).indices == old(sprite_meta).indices,
        final(sprite_meta).quad == old(sprite_meta).quad,
        match view_binding {
            Some(binding) => final(sprite_meta).view_bind_group matches Some(d)
                && is_view_bind_group(d, sprite_pipeline.view_layout, binding),
            None => final(sprite_meta).view_bind_group == old(sprite_meta).view_bind_group,
        },
        final(views)@.len() == old(views)@.len(),
        forall|v: int|
            0 <= v < old(views)@.len() ==> (#[trigger] final(views)@[v]).items@ == old(
                views,
            )@[v].items@ + queued_items(
                view_binding,
                draw_function,
                sprite_pipeline.pipeline,
                extracted_sprites@,
            ),
        final(image_bind_groups)@ == cache_after(
            old(image_bind_groups)@,
            cached_sprites(view_binding, old(views)@.len(), extracted_sprites@),
        ),
        created@.len() == missing_images(
            old(image_bind_groups)@.dom(),
            cached_sprites(view_binding, old(views)@.len(), extracted_sprites@),
        ).len(),
        forall|k: int|
            0 <= k < created@.len() ==> is_material_bind_group(
                #[trigger] created@[k],
                sprite_pipeline.material_layout,
                missing_images(
                    old(image_bind_groups)@.dom(),
                    cached_sprites(view_binding, old(views)@.len(), extracted_sprites@),
                )[k],
            ),
{
    let mut created: Vec<BindGroupDescriptor> = Vec::new();
    let ghost cache = image_bind_groups@;
    let ghost phases = views@;
    let binding = match view_binding {
        Some(binding) => binding,
        None => {
            assert forall|v: int| 0 <= v < phases.len() implies (#[trigger] views@[v]).items@
                == phases[v].items@ + Seq::<Transparent2d>::empty() by {
                assert(phases[v].items@ + Seq::<Transparent2d>::empty() =~= phases[v].items@);
            }
            return created;
        },
    };
    sprite_meta.view_bind_group = Some(view_bind_group(sprite_pipeline.view_layout, binding));
    if views.len() > 0 {
        let mut i: usize = 0;
        while i < extracted_sprites.len()
            invariant
                i <= extracted_sprites.len(),
                image_bind_groups.wf(),
                image_bind_groups@ == cache_after(cache, extracted_sprites@.take(i as int)),
                created@.len() == missing_images(
                    cache.dom(),
                    extracted_sprites@.take(i as int),
                ).len(),
                forall|k: int|
                    0 <= k < created@.len() ==> is_material_bind_group(
                        #[trigger] created@[k],
                        sprite_pipeline.material_layout,
                        missing_images(cache.dom(), extracted_sprites@.take(i as int))[k],
                    ),
            decreases extracted_sprites.len() - i,
        {
            let image = extracted_sprites[i].handle;
            let ghost seen = extracted_sprites@.take(i as int);
            let ghost next = extracted_sprites@.take(i + 1);
            proof {
                assert(next.drop_last() =~= seen);
                assert(next.last().handle == image);
                lemma_missing_images(cache, seen, image);
                assert(cache_after(cache, next) == insert_missing(
                    cache_after(cache, seen),
                    image,
                ));
            }
            let found = image_bind_groups.get_or_insert(image);
            if found.1 {
                created.push(material_bind_group(sprite_pipeline.material_layout, image));
                assert(missing_images(cache.dom(), next) == missing_images(cache.dom(), seen).push(
                    image,
                ));
            } else {
                assert(missing_images(cache.dom(), next) == missing_images(cache.dom(), seen));
            }
            i += 1;
        }
        assert(extracted_sprites@.take(extracted_sprites.len() as int) =~= extracted_sprites@);
    }
    let mut v: usize = 0;
    while v < views.len()
        invariant
            v <= views.len(),
            views@.len() == phases.len(),
            forall|w: int|
                0 <= w < v ==> (#[trigger] views@[w]).items@ == phases[w].items@ + phase_items(
                    draw_function,
                    sprite_pipeline.pipeline,
                    extracted_sprites@,
                ),
            forall|w: int| v <= w < views@.len() ==> views@[w] == phases[w],
        decreases views.len() - v,
    {
        queue_into(&mut views[v], draw_function, sprite_pipeline.pipeline, extracted_sprites);
        v += 1;
    }
    created
}

/// The items that a frame puts into the phase of each view: none without a
/// binding of the view uniforms, else one for each sprite.
pub open spec fn queued_items(
    view_binding: Option<ViewBinding>,
    draw_function: DrawFunctionId,
    pipeline: CachedPipelineId,
    sprites: Seq<ExtractedSprite>,
) -> Seq<Transparent2d> {
    if view_binding is Some {
        phase_items(draw_function, pipeline, sprites)
    } else {
        Seq::empty()
    }
}

/// The sprites whose images a frame asks the cache for: all of them where
/// there is a binding of the view uniforms and a view, else none.
pub open spec fn cached_sprites(
    view_binding: Option<ViewBinding>,
    views: nat,
    sprites: Seq<ExtractedSprite>,
) -> Seq<ExtractedSprite> {
    if view_binding is Some && views > 0 {
        sprites
    } else {
        Seq::empty()
    }
}

/// An image has a bind group after a list of sprites was queued exactly if
/// it had one before or was missing: the missing images are those that the
/// cache grows by.
pub proof fn lemma_missing_images(
    cache: Map<ImageHandle, BindGroupId>,
    sprites: Seq<ExtractedSprite>,
    image: ImageHandle,
)
    ensures
        cache_after(cache, sprites).contains_key(image) <==> cache.contains_key(image)
            || missing_images(cache.dom(), sprites).contains(image),
    decreases sprites.len(),
{
    if sprites.len() > 0 {
        let last = sprites.last().handle;
        lemma_missing_images(cache, sprites.drop_last(), image);
        lemma_missing_images(cache, sprites.drop_last(), last);
        let earlier = cache_after(cache, sprites.drop_last());
        let before = missing_images(cache.dom(), sprites.drop_last());
        let after = missing_images(cache.dom(), sprites);
        assert(cache_after(cache, sprites) == insert_missing(earlier, last));
        if !earlier.contains_key(last) {
            assert(after == before.push(last));
            assert(after[before.len() as int] == last);
            if before.contains(image) {
                let k = choose|k: int| 0 <= k < before.len() && before[k] == image;
                assert(after[k] == image);
            }
            if after.contains(image) {
                let k = choose|k: int| 0 <= k < after.len() && after[k] == image;
                if k < before.len() {
                    assert(before[k] == image);
                }
            }
        }
    }
}

/// The images that a list of sprites uses.
pub open spec fn images_of(sprites: Seq<ExtractedSprite>) -> Set<ImageHandle> {
    Set::new(
        |image: ImageHandle|
            exists|i: int| 0 <= i < sprites.len() && (#[trigger] sprites[i]).handle == image,
    )
}

/// However many sprites share an image, the image is missing at most once:
/// the missing images hold no image twice, and they are exactly the images
/// that the sprites use and the cache lacks.
pub proof fn lemma_missing_images_once(cached: Set<ImageHandle>, sprites: Seq<ExtractedSprite>)
    ensures
        missing_images(cached, sprites).no_duplicates(),
        missing_images(cached, sprites).to_set() == images_of(sprites).difference(cached),
    decreases sprites.len(),
{
    let after = missing_images(cached, sprites);
    if sprites.len() == 0 {
        assert(after.to_set() =~= images_of(sprites).difference(cached));
    } else {
        let rest = sprites.drop_last();
        let before = missing_images(cached, rest);
        let last = sprites.last().handle;
        lemma_missing_images_once(cached, rest);
        assert forall|image: ImageHandle| images_of(sprites).contains(image) <==> images_of(
            rest,
        ).contains(image) || image == last by {
            if images_of(rest).contains(image) {
                let i = choose|i: int| 0 <= i < rest.len() && (#[trigger] rest[i]).handle == image;
                assert(sprites[i].handle == image);
            }
            if image == last {
                assert(sprites[sprites.len() - 1].handle == image);
            }
            if images_of(sprites).contains(image) {
                let i = choose|i: int|
                    0 <= i < sprites.len() && (#[trigger] sprites[i]).handle == image;
                if i < rest.len() {
                    assert(rest[i].handle == image);
                }
            }
        }
        assert(before.contains(last) <==> before.to_set().contains(last));
        assert forall|image: ImageHandle| after.to_set().contains(image) <==> images_of(
            sprites,
        ).difference(cached).contains(image) by {
            assert(before.to_set().contains(image) <==> before.contains(image));
            assert(after.to_set().contains(image) <==> after.contains(image));
            if !cached.contains(last) && !before.contains(last) {
                assert(after == before.push(last));
                assert(after[before.len() as int] == last);
                if before.contains(image) {
                    let k = choose|k: int| 0 <= k < before.len() && before[k] == image;
                    assert(after[k] == image);
                }
                if after.contains(image) {
                    let k = choose|k: int| 0 <= k < after.len() && after[k] == image;
                    if k < before.len() {
                        assert(before[k] == image);
                    }
                }
            }
        }
        assert(after.to_set() =~= images_of(sprites).difference(cached));
    }
}

/// Texture reuse: a frame asks for as many new bind groups as its sprites
/// use images that have none, however many sprites share an image.
pub proof fn lemma_one_group_per_image(cached: Set<ImageHandle>, sprites: Seq<ExtractedSprite>)
    ensures
        missing_images(cached, sprites).len() == images_of(sprites).difference(cached).len(),
{
    lemma_missing_images_once(cached, sprites);
    missing_images(cached, sprites).unique_seq_to_set();
}

/// What queuing does to the cache. Every image that had a bind group keeps
/// it; the missing images come in, and the `k`-th of them gets the bind
/// group of number `n + k`, where `n` is the number of entries before.
pub proof fn lemma_cache_after(cache: Map<ImageHandle, BindGroupId>, sprites: Seq<ExtractedSprite>)
    requires
        cache.dom().finite(),
    ensures
        cache_after(cache, sprites).dom().finite(),
        cache_after(cache, sprites).dom().len() == cache.dom().len() + missing_images(
            cache.dom(),
            sprites,
        ).len(),
        forall|image: ImageHandle| #[trigger]
            cache.contains_key(image) ==> cache_after(cache, sprites).contains_key(image)
                && cache_after(cache, sprites)[image] == cache[image],
        forall|k: int|
            0 <= k < missing_images(cache.dom(), sprites).len() ==> {
                let image = #[trigger] missing_images(cache.dom(), sprites)[k];
                &&& !cache.contains_key(image)
                &&& cache_after(cache, sprites).contains_key(image)
                &&& cache_after(cache, sprites)[image] == BindGroupId(
                    (cache.dom().len() + k) as usize,
                )
            },
    decreases sprites.len(),
{
    if sprites.len() > 0 {
        let rest = sprites.drop_last();
        let last = sprites.last().handle;
        let earlier = cache_after(cache, rest);
        let before = missing_images(cache.dom(), rest);
        let after = missing_images(cache.dom(), sprites);
        lemma_cache_after(cache, rest);
        lemma_missing_images(cache, rest, last);
        assert(cache_after(cache, sprites) == insert_missing(earlier, last));
        if !earlier.contains_key(last) {
            assert(after == before.push(last));
            assert forall|k: int| 0 <= k < after.len() implies {
                let image = #[trigger] after[k];
                &&& !cache.contains_key(image)
                &&& cache_after(cache, sprites).contains_key(image)
                &&& cache_after(cache, sprites)[image] == BindGroupId(
                    (cache.dom().len() + k) as usize,
                )
            } by {
                if k < before.len() {
                    assert(after[k] == before[k]);
                    assert(earlier.contains_key(before[k]));
                }
            }
        } else {
            assert(after == before);
        }
    }
}

/// A numbered cache stays numbered: the bind groups of `n` images are
/// `0 .. n`, before a frame and after it.
pub proof fn lemma_cache_stays_numbered(
    cache: Map<ImageHandle, BindGroupId>,
    sprites: Seq<ExtractedSprite>,
)
    requires
        is_numbered(cache),
        cache.dom().len() + sprites.len() <= usize::MAX,
    ensures
        is_numbered(cache_after(cache, sprites)),
        cache_after(cache, sprites).dom().len() <= cache.dom().len() + sprites.len(),
    decreases sprites.len(),
{
    if sprites.len() > 0 {
        let earlier = cache_after(cache, sprites.drop_last());
        lemma_cache_stays_numbered(cache, sprites.drop_last());
        let last = sprites.last().handle;
        let later = cache_after(cache, sprites);
        assert(later == insert_missing(earlier, last));
        if !earlier.contains_key(last) {
            assert(later.dom() =~= earlier.dom().insert(last));
            assert forall|a: ImageHandle, b: ImageHandle|
                later.contains_key(a) && later.contains_key(b) && #[trigger] later[a]
                    == #[trigger] later[b] implies a == b by {
                if a != last {
                    assert(earlier.contains_key(a));
                }
                if b != last {
                    assert(earlier.contains_key(b));
                }
            }
        }
    }
}

/// A frame without sprites queues nothing: no item for any view, no image
/// asked for, the cache as it was.
pub proof fn lemma_empty_frame(
    cache: Map<ImageHandle, BindGroupId>,
    view_binding: Option<ViewBinding>,
    views: nat,
    draw_function: DrawFunctionId,
    pipeline: CachedPipelineId,
)
    ensures
        queued_items(view_binding, draw_function, pipeline, Seq::empty()) == Seq::<
            Transparent2d,
        >::empty(),
        cache_after(cache, cached_sprites(view_binding, views, Seq::empty())) == cache,
        missing_images(cache.dom(), cached_sprites(view_binding, views, Seq::empty())).len() == 0,
{
    assert(phase_items(draw_function, pipeline, Seq::empty()) =~= Seq::<Transparent2d>::empty());
}

} // verus!
