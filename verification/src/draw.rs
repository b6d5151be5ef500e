//! Drawing: from one queued item to the commands of a render pass.

use crate::extract::ExtractedSprite;
use crate::pipeline::{CachedPipelineId, IndexFormat};
use crate::prepare::{SpriteMeta, QUAD_INDICES};
use crate::queue::{BindGroupId, ImageBindGroups, Transparent2d};
use vstd::prelude::*;

verus! {

/// A bind group that a pass can bind.
#[derive(Clone, Copy, Debug, PartialEq, Eq, Structural)]
pub enum BoundGroup {
    /// The bind group of the views.
    View,
    /// The bind group of a texture.
    Material(BindGroupId),
}

/// One command of a render pass.
#[derive(Clone, Copy, Debug, PartialEq, Eq, Structural)]
pub enum RenderCommand {
    /// Use this pipeline, which is compiled.
    SetRenderPipeline(CachedPipelineId),
    /// Bind the whole shared vertex buffer at a slot.
    SetVertexBuffer { slot: u32 },
    /// Bind the whole shared index buffer.
    SetIndexBuffer { offset: u64, format: IndexFormat },
    /// Bind a group at an index, at a dynamic offset if it takes one.
    SetBindGroup { index: u32, group: BoundGroup, dynamic_offset: Option<u32> },
    /// Draw the indices `first_index .. end_index`, for the instances
    /// `first_instance .. end_instance`.
    DrawIndexed {
        first_index: u32,
        end_index: u32,
        base_vertex: i32,
        first_instance: u32,
        end_instance: u32,
    },
}

/// The commands that draw the sprite in slot `batch_index`: the pipeline, the
/// two shared buffers, the bind group of the views at the offset of this
/// view, the bind group of the sprite's texture, and one indexed draw of the
/// six indices of the slot.
pub open spec fn sprite_commands(
    pipeline: CachedPipelineId,
    view_offset: u32,
    material: BindGroupId,
    batch_index: usize,
) -> Seq<RenderCommand> {
    seq![
        RenderCommand::SetRenderPipeline(pipeline),
        RenderCommand::SetVertexBuffer { slot: 0 },
        RenderCommand::SetIndexBuffer { offset: 0, format: IndexFormat::Uint32 },
        RenderCommand::SetBindGroup {
            index: 0,
            group: BoundGroup::View,
            dynamic_offset: Some(view_offset),
        },
        RenderCommand::SetBindGroup {
            index: 1,
            group: BoundGroup::Material(material),
            dynamic_offset: None,
        },
        RenderCommand::DrawIndexed {
            first_index: (batch_index * 6) as u32,
            end_index: (batch_index * 6 + 6) as u32,
            base_vertex: 0,
            first_instance: 0,
            end_instance: 1,
        },
    ]
}

/// Whether everything is there that drawing a sprite reaches for: the two
/// buffers were filled, the bind group of the views was described, the
/// sprite's image has a bind group, and the sprite's slot can be counted in
/// 32 bits.
pub open spec fn can_draw(
    sprite_meta: SpriteMeta,
    image_bind_groups: ImageBindGroups,
    sprite: ExtractedSprite,
) -> bool {
    &&& sprite_meta.vertices@.len() > 0
    &&& sprite_meta.indices@.len() > 0
    &&& sprite_meta.view_bind_group is Some
    &&& image_bind_groups@.contains_key(sprite.handle)
    &&& sprite.batch_index * 6 + 6 <= u32::MAX
}

/// The draw function of sprites.
#[derive(Clone, Copy, Debug, PartialEq, Eq, Structural)]
pub struct DrawSprite {}

impl DrawSprite {
    /// The draw function.
    pub fn new() -> (draw: DrawSprite) {
        DrawSprite {  }
    }

    /// The commands that draw the sprite of one queued item in one view.
    ///
    /// `pipeline_ready` tells whether the pipeline of the item is compiled;
    /// while it is not, the item is skipped and nothing is drawn.
    /// `view_offset` is the offset of the view's record in the view
    /// uniforms, and `extracted_sprite` the sprite of the item's entity.
    pub fn draw(
        &self,
        sprite_meta: &SpriteMeta,
        image_bind_groups: &ImageBindGroups,
        pipeline_ready: bool,
        view_offset: u32,
        item: &Transparent2d,
        extracted_sprite: &ExtractedSprite,
    ) -> (commands: Vec<RenderCommand>)
        requires
            pipeline_ready ==> can_draw(*sprite_meta, *image_bind_groups, *extracted_sprite),
        ensures
            !pipeline_ready ==> commands@.len() == 0,
            pipeline_ready ==> commands@ == sprite_commands(
                item.pipeline,
                view_offset,
                image_bind_groups@[extracted_sprite.handle],
                extracted_sprite.batch_index,
            ),
    {
        let mut commands: Vec<RenderCommand> = Vec::new();
        if !pipeline_ready {
            return commands;
        }
        let material = match image_bind_groups.get(extracted_sprite.handle) {
            Some(group) => group,
            None => { return commands; },
        };
        let first: usize = extracted_sprite.batch_index * QUAD_INDICES;
        commands.push(RenderCommand::SetRenderPipeline(item.pipeline));
        commands.push(RenderCommand::SetVertexBuffer { slot: 0 });
        commands.push(RenderCommand::SetIndexBuffer { offset: 0, format: IndexFormat::Uint32 });
        commands.push(
            RenderCommand::SetBindGroup {
                index: 0,
                group: BoundGroup::View,
                dynamic_offset: Some(view_offset),
            },
        );
        commands.push(
            RenderCommand::SetBindGroup {
                index: 1,
                group: BoundGroup::Material(material),
                dynamic_offset: None,
            },
        );
        commands.push(
            RenderCommand::DrawIndexed {
                first_index: first as u32,
                end_index: (first + QUAD_INDICES) as u32,
                base_vertex: 0,
                first_instance: 0,
                end_instance: 1,
            },
        );
        assert(commands@ =~= sprite_commands(
            item.pipeline,
            view_offset,
            image_bind_groups@[extracted_sprite.handle],
            extracted_sprite.batch_index,
        ));
        commands
    }
}

} // verus!
