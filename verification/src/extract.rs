//! Extraction: from the sprites of a scene to the flat list of one frame.

use crate::math::{Mat4, Rect, Vec2, ZERO};
use vstd::prelude::*;

verus! {

/// The identity of an entity of the scene.
#[derive(Clone, Copy, Debug, PartialEq, Eq, Structural)]
pub struct Entity(pub u64);

/// The identity of a source image. It names the image and owns nothing: two
/// handles are the same texture exactly if they are equal.
#[derive(Clone, Copy, Debug, PartialEq, Eq, Structural)]
pub struct ImageHandle(pub u64);

/// What one visible sprite needs to be drawn, for the length of one frame.
#[derive(Clone, Copy, Debug, PartialEq, Eq)]
pub struct ExtractedSprite {
    /// The entity that the sprite was extracted from.
    pub entity: Entity,
    /// Places the sprite in the world.
    pub transform: Mat4,
    /// The part of the source image that is sampled, in pixels.
    pub rect: Rect,
    /// The source image.
    pub handle: ImageHandle,
    /// The size of the whole atlas, for a sprite that is cut from one.
    pub atlas_size: Option<Vec2>,
    /// The sprite's slot in the shared buffers. Extraction leaves it at 0;
    /// it means something only once the frame has been prepared.
    pub batch_index: usize,
}

/// A sprite of the scene with an image of its own, as one frame finds it.
#[derive(Clone, Copy, Debug, PartialEq, Eq)]
pub struct SpriteSource {
    pub entity: Entity,
    /// The world transform of the entity.
    pub transform: Mat4,
    /// The size to draw the sprite at, where it is not that of the image.
    pub custom_size: Option<Vec2>,
    /// The image.
    pub handle: ImageHandle,
    /// The size of the image in pixels, once the image is loaded.
    pub image_size: Option<Vec2>,
}

/// An image that holds many sprites, each in a rectangle of its own.
#[derive(Debug)]
pub struct TextureAtlas {
    /// The image.
    pub texture: ImageHandle,
    /// The size of the image in pixels.
    pub size: Vec2,
    /// The rectangles of the sprites.
    pub textures: Vec<Rect>,
}

/// A sprite of the scene that is cut from an atlas, as one frame finds it.
#[derive(Clone, Copy, Debug)]
pub struct AtlasSpriteSource<'a> {
    pub entity: Entity,
    /// The world transform of the entity.
    pub transform: Mat4,
    /// Which rectangle of the atlas the sprite shows.
    pub index: u32,
    /// The atlas, once it is loaded.
    pub atlas: Option<&'a TextureAtlas>,
}

/// What a sprite with its own image is extracted to: nothing while the image
/// is not loaded, else a rectangle from the origin to the size of the sprite.
pub open spec fn plain_sprite(source: SpriteSource) -> Option<ExtractedSprite> {
    match source.image_size {
        Some(image_size) => Some(
            ExtractedSprite {
                entity: source.entity,
                transform: source.transform,
                rect: Rect {
                    min: Vec2 { x: ZERO, y: ZERO },
                    max: match source.custom_size {
                        Some(size) => size,
                        None => image_size,
                    },
                },
                handle: source.handle,
                atlas_size: None,
                batch_index: 0,
            },
        ),
        None => None,
    }
}

/// What a sprite of an atlas is extracted to: nothing while the atlas is not
/// loaded or where the atlas has no rectangle of that index, else that
/// rectangle of the atlas.
pub open spec fn atlas_sprite(source: AtlasSpriteSource) -> Option<ExtractedSprite> {
    match source.atlas {
        Some(atlas) => if source.index < atlas.textures@.len() {
            Some(
                ExtractedSprite {
                    entity: source.entity,
                    transform: source.transform,
                    rect: atlas.textures@[source.index as int],
                    handle: atlas.texture,
                    atlas_size: Some(atlas.size),
                    batch_index: 0,
                },
            )
        } else {
            None
        },
        None => None,
    }
}

/// The sprites of a frame: those of the sources that can be drawn, in the
/// order of the sources.
pub open spec fn extracted_sprites(sources: Seq<SpriteSource>) -> Seq<ExtractedSprite>
    decreases sources.len(),
{
    if sources.len() == 0 {
        Seq::empty()
    } else {
        let before = extracted_sprites(sources.drop_last());
        match plain_sprite(sources.last()) {
            Some(sprite) => before.push(sprite),
            None => before,
        }
    }
}

/// The atlas sprites of a frame: those of the sources that can be drawn, in
/// the order of the sources.
pub open spec fn extracted_atlases(sources: Seq<AtlasSpriteSource>) -> Seq<ExtractedSprite>
    decreases sources.len(),
{
    if sources.len() == 0 {
        Seq::empty()
    } else {
        let before = extracted_atlases(sources.drop_last());
        match atlas_sprite(sources.last()) {
            Some(sprite) => before.push(sprite),
            None => before,
        }
    }
}

/// Extracts the sprites that have an image of their own. A sprite whose
/// image is not loaded yet is left out of this frame.
pub fn extract_sprites(sources: &Vec<SpriteSource>) -> (sprites: Vec<ExtractedSprite>)
    ensures
        sprites@ == extracted_sprites(sources@),
{
    let mut sprites: Vec<ExtractedSprite> = Vec::new();
    let mut i: usize = 0;
    while i < sources.len()
        invariant
            i <= sources.len(),
            sprites@ == extracted_sprites(sources@.take(i as int)),
        decreases sources.len() - i,
    {
        let source = sources[i];
        proof {
            assert(sources@.take(i + 1).drop_last() =~= sources@.take(i as int));
        }
        match source.image_size {
            Some(image_size) => {
                let max = match source.custom_size {
                    Some(size) => size,
                    None => image_size,
                };
                sprites.push(
                    ExtractedSprite {
                        entity: source.entity,
                        transform: source.transform,
                        rect: Rect { min: Vec2::zero(), max },
                        handle: source.handle,
                        atlas_size: None,
                        batch_index: 0,
                    },
                );
            },
            None => {},
        }
        i += 1;
    }
    assert(sources@.take(sources.len() as int) =~= sources@);
    sprites
}

/// Extracts the sprites that are cut from an atlas. A sprite whose atlas is
/// not loaded yet, or does not hold the rectangle that the sprite names, is
/// left out of this frame.
pub fn extract_atlases(sources: &Vec<AtlasSpriteSource>) -> (sprites: Vec<ExtractedSprite>)
    ensures
        sprites@ == extracted_atlases(sources@),
{
    let mut sprites: Vec<ExtractedSprite> = Vec::new();
    let mut i: usize = 0;
    while i < sources.len()
        invariant
            i <= sources.len(),
            sprites@ == extracted_atlases(sources@.take(i as int)),
        decreases sources.len() - i,
    {
        let source = sources[i];
        proof {
            assert(sources@.take(i + 1).drop_last() =~= sources@.take(i as int));
        }
        match source.atlas {
            Some(atlas) => {
                let index = source.index as usize;
                if index < atlas.textures.len() {
                    sprites.push(
                        ExtractedSprite {
                            entity: source.entity,
                            transform: source.transform,
                            rect: atlas.textures[index],
                            handle: atlas.texture,
                            atlas_size: Some(atlas.size),
                            batch_index: 0,
                        },
                    );
                }
            },
            None => {},
        }
        i += 1;
    }
    assert(sources@.take(sources.len() as int) =~= sources@);
    sprites
}

} // verus!
