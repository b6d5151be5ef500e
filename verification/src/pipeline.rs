//! The one render pipeline that sprites are drawn with.
//!
//! The pipeline is fixed: one vertex buffer of position and texture
//! coordinate, a bind group for the view and one for the sprite's texture,
//! alpha blending, triangle lists, no culling, no depth test. This module
//! states that configuration as plain data. The host turns the data into GPU
//! objects once, at start-up, and hands back the handles that
//! [`SpritePipeline`] keeps.

use crate::extract::ImageHandle;
use vstd::prelude::*;

verus! {

/// Names a bind group layout that the host created.
#[derive(Clone, Copy, Debug, PartialEq, Eq, Structural)]
pub struct BindGroupLayoutId(pub usize);

/// Names a pipeline in the host's pipeline cache. The pipeline behind it may
/// still be compiling.
#[derive(Clone, Copy, Debug, PartialEq, Eq, Structural)]
pub struct CachedPipelineId(pub usize);

/// Names a shader module.
#[derive(Clone, Copy, Debug, PartialEq, Eq, Structural)]
pub struct ShaderId(pub u64);

/// The shader stages that can see a binding.
#[derive(Clone, Copy, Debug, PartialEq, Eq, Structural)]
pub struct ShaderStages {
    pub vertex: bool,
    pub fragment: bool,
}

/// How a texture is sampled.
#[derive(Clone, Copy, Debug, PartialEq, Eq, Structural)]
pub enum TextureSampleType {
    Float { filterable: bool },
    Depth,
    Sint,
    Uint,
}

/// The shape of a texture view.
#[derive(Clone, Copy, Debug, PartialEq, Eq, Structural)]
pub enum TextureViewDimension {
    D1,
    D2,
    D2Array,
    Cube,
    CubeArray,
    D3,
}

/// What is bound at one slot of a bind group.
#[derive(Clone, Copy, Debug, PartialEq, Eq, Structural)]
pub enum BindingType {
    UniformBuffer { has_dynamic_offset: bool, min_binding_size: Option<u64> },
    Texture { sample_type: TextureSampleType, view_dimension: TextureViewDimension, multisampled: bool },
    Sampler { comparison: bool, filtering: bool },
}

/// One slot of a bind group layout.
#[derive(Clone, Copy, Debug, PartialEq, Eq, Structural)]
pub struct BindGroupLayoutEntry {
    pub binding: u32,
    pub visibility: ShaderStages,
    pub ty: BindingType,
    pub count: Option<u32>,
}

/// A bind group layout, as the host is to create it.
#[derive(Debug)]
pub struct BindGroupLayoutDescriptor {
    pub label: &'static str,
    pub entries: Vec<BindGroupLayoutEntry>,
}

/// The format of one vertex attribute.
#[derive(Clone, Copy, Debug, PartialEq, Eq, Structural)]
pub enum VertexFormat {
    Float32x2,
    Float32x3,
    Float32x4,
}

/// Whether a vertex buffer advances per vertex or per instance.
#[derive(Clone, Copy, Debug, PartialEq, Eq, Structural)]
pub enum VertexStepMode {
    Vertex,
    Instance,
}

/// One attribute of a vertex record.
#[derive(Clone, Copy, Debug, PartialEq, Eq, Structural)]
pub struct VertexAttribute {
    pub format: VertexFormat,
    pub offset: u64,
    pub shader_location: u32,
}

/// The layout of the records of one vertex buffer.
#[derive(Debug)]
pub struct VertexBufferLayout {
    pub array_stride: u64,
    pub step_mode: VertexStepMode,
    pub attributes: Vec<VertexAttribute>,
}

/// The vertex stage.
#[derive(Debug)]
pub struct VertexState {
    pub shader: ShaderId,
    pub shader_defs: Vec<&'static str>,
    pub entry_point: &'static str,
    pub buffers: Vec<VertexBufferLayout>,
}

/// The pixel format of a color target.
#[derive(Clone, Copy, Debug, PartialEq, Eq, Structural)]
pub enum TextureFormat {
    Rgba8UnormSrgb,
    Bgra8UnormSrgb,
}

/// A factor of the blend equation.
#[derive(Clone, Copy, Debug, PartialEq, Eq, Structural)]
pub enum BlendFactor {
    Zero,
    One,
    SrcAlpha,
    OneMinusSrcAlpha,
}

/// The operator of the blend equation.
#[derive(Clone, Copy, Debug, PartialEq, Eq, Structural)]
pub enum BlendOperation {
    Add,
    Subtract,
}

/// The blend equation of the color channels or of the alpha channel.
#[derive(Clone, Copy, Debug, PartialEq, Eq, Structural)]
pub struct BlendComponent {
    pub src_factor: BlendFactor,
    pub dst_factor: BlendFactor,
    pub operation: BlendOperation,
}

/// How a fragment is blended into its target.
#[derive(Clone, Copy, Debug, PartialEq, Eq, Structural)]
pub struct BlendState {
    pub color: BlendComponent,
    pub alpha: BlendComponent,
}

/// The channels of a target that are written.
#[derive(Clone, Copy, Debug, PartialEq, Eq, Structural)]
pub struct ColorWrites {
    pub red: bool,
    pub green: bool,
    pub blue: bool,
    pub alpha: bool,
}

/// One color target of the fragment stage.
#[derive(Clone, Copy, Debug, PartialEq, Eq, Structural)]
pub struct ColorTargetState {
    pub format: TextureFormat,
    pub blend: Option<BlendState>,
    pub write_mask: ColorWrites,
}

/// The fragment stage.
#[derive(Debug)]
pub struct FragmentState {
    pub shader: ShaderId,
    pub shader_defs: Vec<&'static str>,
    pub entry_point: &'static str,
    pub targets: Vec<ColorTargetState>,
}

/// How vertices are assembled into primitives.
#[derive(Clone, Copy, Debug, PartialEq, Eq, Structural)]
pub enum PrimitiveTopology {
    PointList,
    LineList,
    LineStrip,
    TriangleList,
    TriangleStrip,
}

/// The width of an index.
#[derive(Clone, Copy, Debug, PartialEq, Eq, Structural)]
pub enum IndexFormat {
    Uint16,
    Uint32,
}

/// The winding of front faces.
#[derive(Clone, Copy, Debug, PartialEq, Eq, Structural)]
pub enum FrontFace {
    Ccw,
    Cw,
}

/// A side of a primitive.
#[derive(Clone, Copy, Debug, PartialEq, Eq, Structural)]
pub enum Face {
    Front,
    Back,
}

/// How a polygon is rasterized.
#[derive(Clone, Copy, Debug, PartialEq, Eq, Structural)]
pub enum PolygonMode {
    Fill,
    Line,
    Point,
}

/// Primitive assembly and rasterization.
#[derive(Clone, Copy, Debug, PartialEq, Eq, Structural)]
pub struct PrimitiveState {
    pub topology: PrimitiveTopology,
    pub strip_index_format: Option<IndexFormat>,
    pub front_face: FrontFace,
    pub cull_mode: Option<Face>,
    pub polygon_mode: PolygonMode,
    pub clamp_depth: bool,
    pub conservative: bool,
}

/// The pixel format of a depth target.
#[derive(Clone, Copy, Debug, PartialEq, Eq, Structural)]
pub enum DepthFormat {
    Depth32Float,
    Depth24Plus,
    Depth24PlusStencil8,
}

/// How a depth is compared with the depth that is there.
#[derive(Clone, Copy, Debug, PartialEq, Eq, Structural)]
pub enum CompareFunction {
    Never,
    Less,
    Equal,
    LessEqual,
    Greater,
    NotEqual,
    GreaterEqual,
    Always,
}

/// Depth testing.
#[derive(Clone, Copy, Debug, PartialEq, Eq, Structural)]
pub struct DepthStencilState {
    pub format: DepthFormat,
    pub depth_write_enabled: bool,
    pub depth_compare: CompareFunction,
}

/// Multisampling.
#[derive(Clone, Copy, Debug, PartialEq, Eq, Structural)]
pub struct MultisampleState {
    pub count: u32,
    pub mask: u64,
    pub alpha_to_coverage_enabled: bool,
}

/// A render pipeline, as the host is to hand it to its pipeline cache.
#[derive(Debug)]
pub struct RenderPipelineDescriptor {
    pub label: &'static str,
    pub layout: Vec<BindGroupLayoutId>,
    pub vertex: VertexState,
    pub fragment: Option<FragmentState>,
    pub primitive: PrimitiveState,
    pub depth_stencil: Option<DepthStencilState>,
    pub multisample: MultisampleState,
}

/// What a slot of a bind group is bound to.
#[derive(Clone, Copy, Debug, PartialEq, Eq, Structural)]
pub enum BindingResource {
    /// The uniform buffer of the views, as the host currently binds it.
    ViewUniforms(ViewBinding),
    /// The GPU texture of an image.
    TextureView(ImageHandle),
    /// The sampler of an image.
    Sampler(ImageHandle),
}

/// Names the binding of the view uniform buffer that the host holds.
#[derive(Clone, Copy, Debug, PartialEq, Eq, Structural)]
pub struct ViewBinding(pub u64);

/// One slot of a bind group.
#[derive(Clone, Copy, Debug, PartialEq, Eq, Structural)]
pub struct BindGroupEntry {
    pub binding: u32,
    pub resource: BindingResource,
}

/// A bind group, as the host is to create it.
#[derive(Debug)]
pub struct BindGroupDescriptor {
    pub label: &'static str,
    pub layout: BindGroupLayoutId,
    pub entries: Vec<BindGroupEntry>,
}

/// Bytes of one vertex record on the GPU: three scalars of position and two
/// of texture coordinate.
pub const VERTEX_SIZE: u64 = 20;

/// The least size of the uniform record of a view.
pub const VIEW_UNIFORM_SIZE: u64 = 144;

impl VertexFormat {
    /// Bytes that an attribute of this format takes.
    pub open spec fn size(self) -> nat {
        match self {
            VertexFormat::Float32x2 => 8,
            VertexFormat::Float32x3 => 12,
            VertexFormat::Float32x4 => 16,
        }
    }
}

/// Where attribute `k` starts when the attributes lie end to end.
pub open spec fn packed_offset(attributes: Seq<VertexAttribute>, k: int) -> nat
    decreases k,
{
    if k <= 0 {
        0
    } else {
        packed_offset(attributes, k - 1) + attributes[k - 1].format.size()
    }
}

impl VertexBufferLayout {
    /// The attributes lie end to end from offset 0, they fill the record
    /// exactly, and attribute `k` feeds shader location `k`.
    pub open spec fn packed(self) -> bool {
        &&& forall|k: int|
            0 <= k < self.attributes@.len() ==> {
                &&& (#[trigger] self.attributes@[k]).offset == packed_offset(self.attributes@, k)
                &&& self.attributes@[k].shader_location == k
            }
        &&& self.array_stride == packed_offset(self.attributes@, self.attributes@.len() as int)
    }
}

/// The layout of the bind group of a view: the view's uniform record, at a
/// dynamic offset, seen by both stages.
pub open spec fn is_view_layout(d: BindGroupLayoutDescriptor) -> bool {
    &&& d.label@ == "sprite_view_layout"@
    &&& d.entries@ =~= seq![
        BindGroupLayoutEntry {
            binding: 0,
            visibility: ShaderStages { vertex: true, fragment: true },
            ty: BindingType::UniformBuffer {
                has_dynamic_offset: true,
                min_binding_size: Some(VIEW_UNIFORM_SIZE),
            },
            count: None,
        },
    ]
}

/// The layout of the bind group of a sprite's texture: the texture and its
/// sampler, seen by the fragment stage alone.
pub open spec fn is_material_layout(d: BindGroupLayoutDescriptor) -> bool {
    &&& d.label@ == "sprite_material_layout"@
    &&& d.entries@ =~= seq![
        BindGroupLayoutEntry {
            binding: 0,
            visibility: ShaderStages { vertex: false, fragment: true },
            ty: BindingType::Texture {
                sample_type: TextureSampleType::Float { filterable: false },
                view_dimension: TextureViewDimension::D2,
                multisampled: false,
            },
            count: None,
        },
        BindGroupLayoutEntry {
            binding: 1,
            visibility: ShaderStages { vertex: false, fragment: true },
            ty: BindingType::Sampler { comparison: false, filtering: true },
            count: None,
        },
    ]
}

/// The vertex buffer of sprites: position at offset 0, texture coordinate
/// behind it, one record per vertex.
pub open spec fn is_vertex_layout(b: VertexBufferLayout) -> bool {
    &&& b.array_stride == VERTEX_SIZE
    &&& b.step_mode == VertexStepMode::Vertex
    &&& b.attributes@ =~= seq![
        VertexAttribute { format: VertexFormat::Float32x3, offset: 0, shader_location: 0 },
        VertexAttribute { format: VertexFormat::Float32x2, offset: 12, shader_location: 1 },
    ]
}

/// Standard alpha blending: the color weighted by the source's alpha, the
/// alpha channels added up.
pub open spec fn alpha_blending() -> BlendState {
    BlendState {
        color: BlendComponent {
            src_factor: BlendFactor::SrcAlpha,
            dst_factor: BlendFactor::OneMinusSrcAlpha,
            operation: BlendOperation::Add,
        },
        alpha: BlendComponent {
            src_factor: BlendFactor::One,
            dst_factor: BlendFactor::One,
            operation: BlendOperation::Add,
        },
    }
}

/// Filled triangle lists, counter-clockwise fronts, nothing culled.
pub open spec fn sprite_primitive() -> PrimitiveState {
    PrimitiveState {
        topology: PrimitiveTopology::TriangleList,
        strip_index_format: None,
        front_face: FrontFace::Ccw,
        cull_mode: None,
        polygon_mode: PolygonMode::Fill,
        clamp_depth: false,
        conservative: false,
    }
}

/// The whole pipeline of sprites, over a given shader, target format and
/// pair of bind group layouts.
pub open spec fn is_sprite_pipeline(
    d: RenderPipelineDescriptor,
    shader: ShaderId,
    format: TextureFormat,
    view_layout: BindGroupLayoutId,
    material_layout: BindGroupLayoutId,
) -> bool {
    &&& d.label@ == "sprite_pipeline"@
    &&& d.layout@ =~= seq![view_layout, material_layout]
    &&& d.vertex.shader == shader
    &&& d.vertex.shader_defs@.len() == 0
    &&& d.vertex.entry_point@ == "vertex"@
    &&& d.vertex.buffers@.len() == 1
    &&& is_vertex_layout(d.vertex.buffers@[0])
    &&& d.fragment matches Some(fragment)
    &&& fragment.shader == shader
    &&& fragment.shader_defs@.len() == 0
    &&& fragment.entry_point@ == "fragment"@
    &&& fragment.targets@ =~= seq![
        ColorTargetState {
            format,
            blend: Some(alpha_blending()),
            write_mask: ColorWrites { red: true, green: true, blue: true, alpha: true },
        },
    ]
    &&& d.primitive == sprite_primitive()
    &&& d.depth_stencil is None
    &&& d.multisample == (MultisampleState {
        count: 1,
        mask: u64::MAX,
        alpha_to_coverage_enabled: false,
    })
}

/// A vertex layout of sprites is packed: its two attributes tile the 20
/// bytes of a vertex record.
pub proof fn lemma_vertex_layout_packed(b: VertexBufferLayout)
    requires
        is_vertex_layout(b),
    ensures
        b.packed(),
{
    let a = b.attributes@;
    assert(packed_offset(a, 0) == 0);
    assert(packed_offset(a, 1) == 12) by {
        reveal_with_fuel(packed_offset, 2);
    }
    assert(packed_offset(a, 2) == 20) by {
        reveal_with_fuel(packed_offset, 3);
    }
}

/// The handles of the sprite pipeline: made once, never changed.
#[derive(Clone, Copy, Debug, PartialEq, Eq, Structural)]
pub struct SpritePipeline {
    pub view_layout: BindGroupLayoutId,
    pub material_layout: BindGroupLayoutId,
    pub pipeline: CachedPipelineId,
}

impl SpritePipeline {
    /// The bind group layout of a view.
    pub fn view_layout_descriptor() -> (d: BindGroupLayoutDescriptor)
        ensures
            is_view_layout(d),
    {
        let mut entries: Vec<BindGroupLayoutEntry> = Vec::new();
        entries.push(
            BindGroupLayoutEntry {
                binding: 0,
                visibility: ShaderStages { vertex: true, fragment: true },
                ty: BindingType::UniformBuffer {
                    has_dynamic_offset: true,
                    min_binding_size: Some(VIEW_UNIFORM_SIZE),
                },
                count: None,
            },
        );
        BindGroupLayoutDescriptor { label: "sprite_view_layout", entries }
    }

    /// The bind group layout of a sprite's texture.
    pub fn material_layout_descriptor() -> (d: BindGroupLayoutDescriptor)
        ensures
            is_material_layout(d),
    {
        let fragment_only = ShaderStages { vertex: false, fragment: true };
        let mut entries: Vec<BindGroupLayoutEntry> = Vec::new();
        entries.push(
            BindGroupLayoutEntry {
                binding: 0,
                visibility: fragment_only,
                ty: BindingType::Texture {
                    sample_type: TextureSampleType::Float { filterable: false },
                    view_dimension: TextureViewDimension::D2,
                    multisampled: false,
                },
                count: None,
            },
        );
        entries.push(
            BindGroupLayoutEntry {
                binding: 1,
                visibility: fragment_only,
                ty: BindingType::Sampler { comparison: false, filtering: true },
                count: None,
            },
        );
        BindGroupLayoutDescriptor { label: "sprite_material_layout", entries }
    }

    /// The layout of the shared vertex buffer.
    pub fn vertex_layout() -> (b: VertexBufferLayout)
        ensures
            is_vertex_layout(b),
            b.packed(),
    {
        let mut attributes: Vec<VertexAttribute> = Vec::new();
        attributes.push(
            VertexAttribute { format: VertexFormat::Float32x3, offset: 0, shader_location: 0 },
        );
        attributes.push(
            VertexAttribute { format: VertexFormat::Float32x2, offset: 12, shader_location: 1 },
        );
        let b = VertexBufferLayout {
            array_stride: VERTEX_SIZE,
            step_mode: VertexStepMode::Vertex,
            attributes,
        };
        proof {
            lemma_vertex_layout_packed(b);
        }
        b
    }

    /// The render pipeline of sprites. The host compiles `shader` for both
    /// stages, draws into targets of `format`, and binds groups of
    /// `view_layout` at index 0 and of `material_layout` at index 1.
    pub fn descriptor(
        shader: ShaderId,
        format: TextureFormat,
        view_layout: BindGroupLayoutId,
        material_layout: BindGroupLayoutId,
    ) -> (d: RenderPipelineDescriptor)
        ensures
            is_sprite_pipeline(d, shader, format, view_layout, material_layout),
            d.vertex.buffers@[0].packed(),
    {
        let mut layout: Vec<BindGroupLayoutId> = Vec::new();
        layout.push(view_layout);
        layout.push(material_layout);
        let mut buffers: Vec<VertexBufferLayout> = Vec::new();
        buffers.push(Self::vertex_layout());
        let mut targets: Vec<ColorTargetState> = Vec::new();
        targets.push(
            ColorTargetState {
                format,
                blend: Some(
                    BlendState {
                        color: BlendComponent {
                            src_factor: BlendFactor::SrcAlpha,
                            dst_factor: BlendFactor::OneMinusSrcAlpha,
                            operation: BlendOperation::Add,
                        },
                        alpha: BlendComponent {
                            src_factor: BlendFactor::One,
                            dst_factor: BlendFactor::One,
                            operation: BlendOperation::Add,
                        },
                    },
                ),
                write_mask: ColorWrites { red: true, green: true, blue: true, alpha: true },
            },
        );
        RenderPipelineDescriptor {
            label: "sprite_pipeline",
            layout,
            vertex: VertexState { shader, shader_defs: Vec::new(), entry_point: "vertex", buffers },
            fragment: Some(
                FragmentState { shader, shader_defs: Vec::new(), entry_point: "fragment", targets },
            ),
            primitive: PrimitiveState {
                topology: PrimitiveTopology::TriangleList,
                strip_index_format: None,
                front_face: FrontFace::Ccw,
                cull_mode: None,
                polygon_mode: PolygonMode::Fill,
                clamp_depth: false,
                conservative: false,
            },
            depth_stencil: None,
            multisample: MultisampleState {
                count: 1,
                mask: u64::MAX,
                alpha_to_coverage_enabled: false,
            },
        }
    }

    /// Keeps the handles that the host got for the two layouts and for the
    /// queued pipeline.
    pub fn new(
        view_layout: BindGroupLayoutId,
        material_layout: BindGroupLayoutId,
        pipeline: CachedPipelineId,
    ) -> (p: SpritePipeline)
        ensures
            p == (SpritePipeline { view_layout, material_layout, pipeline }),
    {
        SpritePipeline { view_layout, material_layout, pipeline }
    }
}

} // verus!
