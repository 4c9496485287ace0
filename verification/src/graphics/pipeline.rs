//! The fixed state of the render pipeline: resource-set layouts, the
//! pipeline itself, and the buffers and textures that have to agree with it.

use vstd::prelude::*;

use crate::graphics::model::{
    vertex_attributes, vertex_stride, ModelView, Vertex, VertexBufferLayout, VertexStepMode,
};
use crate::graphics::frame::{
    bound_material, frame_commands, lemma_frame_commands, BindGroupId, IndexFormat,
    RenderCommand,
};

verus! {

/// Shader stage that sees a binding.
#[derive(Clone, Copy, Debug, PartialEq, Eq)]
pub enum ShaderStage {
    Vertex,
    Fragment,
}

/// What a binding holds.
#[derive(Clone, Copy, Debug, PartialEq, Eq)]
pub enum BindingType {
    /// A uniform buffer, bound whole, without dynamic offset.
    UniformBuffer,
    /// A two-dimensional, filterable, single-sampled texture.
    Texture,
    /// A filtering sampler.
    Sampler,
}

/// One binding of a resource set.
#[derive(Clone, Copy, Debug, PartialEq, Eq)]
pub struct BindGroupLayoutEntry {
    pub binding: u32,
    pub visibility: ShaderStage,
    pub ty: BindingType,
}

/// The layouts of the three resource sets.
#[derive(Clone, Debug, PartialEq, Eq)]
pub struct Layouts {
    pub camera_bgl: Vec<BindGroupLayoutEntry>,
    pub model_bgl: Vec<BindGroupLayoutEntry>,
    pub material_bgl: Vec<BindGroupLayoutEntry>,
}

/// One of the three resource-set layouts.
#[derive(Clone, Copy, Debug, PartialEq, Eq)]
pub enum LayoutId {
    Camera,
    Model,
    Material,
}

/// How vertices are assembled into primitives.
#[derive(Clone, Copy, Debug, PartialEq, Eq)]
pub enum PrimitiveTopology {
    PointList,
    LineList,
    LineStrip,
    TriangleList,
    TriangleStrip,
}

/// A side of a triangle.
#[derive(Clone, Copy, Debug, PartialEq, Eq)]
pub enum Face {
    Front,
    Back,
}

/// How a fragment is combined with what the target holds.
#[derive(Clone, Copy, Debug, PartialEq, Eq)]
pub enum BlendMode {
    Replace,
    AlphaBlending,
}

/// Depth comparison that lets a fragment pass.
#[derive(Clone, Copy, Debug, PartialEq, Eq)]
pub enum CompareFunction {
    Never,
    Less,
    Equal,
    LessEqual,
    Greater,
    NotEqual,
    GreaterEqual,
    Always,
}

/// Format of a texture the viewer creates.
#[derive(Clone, Copy, Debug, PartialEq, Eq)]
pub enum TextureFormat {
    Rgba8UnormSrgb,
    Depth32Float,
}

/// What a texture is used for.
#[derive(Clone, Copy, Debug, PartialEq, Eq)]
pub enum TextureUse {
    /// Rendered to as an attachment.
    RenderAttachment,
    /// Filled by copy and sampled in a shader.
    SampledCopyTarget,
}

/// Depth test of the pipeline.
#[derive(Clone, Copy, Debug, PartialEq, Eq)]
pub struct DepthState {
    pub format: TextureFormat,
    pub depth_write_enabled: bool,
    pub depth_compare: CompareFunction,
}

/// A two-dimensional texture with one layer and one mip level.
#[derive(Clone, Copy, Debug, PartialEq, Eq)]
pub struct TextureDescriptor {
    pub width: u32,
    pub height: u32,
    pub sample_count: u32,
    pub format: TextureFormat,
    pub usage: TextureUse,
}

/// The render pipeline. The colour target's format is the surface's and is
/// not part of this.
#[derive(Clone, Debug, PartialEq, Eq)]
pub struct PipelineDescriptor {
    /// The layout of each resource set, by set number.
    pub bind_group_layouts: Vec<LayoutId>,
    /// The layout of each vertex buffer, by slot.
    pub vertex_buffers: Vec<VertexBufferLayout>,
    pub topology: PrimitiveTopology,
    pub cull_mode: Option<Face>,
    pub blend: BlendMode,
    pub depth_stencil: DepthState,
    pub sample_count: u32,
}

/// Size in bytes of a uniform buffer that holds one four-by-four matrix of
/// single-precision numbers: the camera's and the model's.
pub const MATRIX_BYTES: u64 = 64;

/// The layout of a set that holds one matrix for the vertex stage.
pub open spec fn uniform_layout() -> Seq<BindGroupLayoutEntry> {
    seq![
        BindGroupLayoutEntry {
            binding: 0,
            visibility: ShaderStage::Vertex,
            ty: BindingType::UniformBuffer,
        },
    ]
}

/// The layout of a material's set: texture at binding 0 and sampler at
/// binding 1, both for the fragment stage.
pub open spec fn material_layout() -> Seq<BindGroupLayoutEntry> {
    seq![
        BindGroupLayoutEntry {
            binding: 0,
            visibility: ShaderStage::Fragment,
            ty: BindingType::Texture,
        },
        BindGroupLayoutEntry {
            binding: 1,
            visibility: ShaderStage::Fragment,
            ty: BindingType::Sampler,
        },
    ]
}

/// The layouts by set number: camera, model, material.
pub open spec fn set_layouts() -> Seq<LayoutId> {
    seq![LayoutId::Camera, LayoutId::Model, LayoutId::Material]
}

/// The depth test: nearer fragments pass and are written, in 32-bit depth.
pub open spec fn depth_state() -> DepthState {
    DepthState {
        format: TextureFormat::Depth32Float,
        depth_write_enabled: true,
        depth_compare: CompareFunction::Less,
    }
}

/// The depth texture of a surface of the given size.
pub open spec fn depth_descriptor(width: u32, height: u32) -> TextureDescriptor {
    TextureDescriptor {
        width,
        height,
        sample_count: 1,
        format: TextureFormat::Depth32Float,
        usage: TextureUse::RenderAttachment,
    }
}

/// The layout that goes with a resource set bound while drawing.
pub open spec fn layout_of(group: BindGroupId) -> LayoutId {
    match group {
        BindGroupId::Camera => LayoutId::Camera,
        BindGroupId::Model => LayoutId::Model,
        BindGroupId::Material(_) => LayoutId::Material,
    }
}

/// Width in bytes of one index of the given format.
pub open spec fn index_bytes(format: IndexFormat) -> int {
    match format {
        IndexFormat::Uint16 => 2,
        IndexFormat::Uint32 => 4,
    }
}

/// The layouts of the three resource sets.
pub fn create_bind_group_layouts() -> (r: Layouts)
    ensures
        r.camera_bgl@ == uniform_layout(),
        r.model_bgl@ == uniform_layout(),
        r.material_bgl@ == material_layout(),
{
    let uniform = BindGroupLayoutEntry {
        binding: 0,
        visibility: ShaderStage::Vertex,
        ty: BindingType::UniformBuffer,
    };
    let mut camera_bgl: Vec<BindGroupLayoutEntry> = Vec::new();
    camera_bgl.push(uniform);
    let mut model_bgl: Vec<BindGroupLayoutEntry> = Vec::new();
    model_bgl.push(uniform);
    let mut material_bgl: Vec<BindGroupLayoutEntry> = Vec::new();
    material_bgl.push(
        BindGroupLayoutEntry {
            binding: 0,
            visibility: ShaderStage::Fragment,
            ty: BindingType::Texture,
        },
    );
    material_bgl.push(
        BindGroupLayoutEntry {
            binding: 1,
            visibility: ShaderStage::Fragment,
            ty: BindingType::Sampler,
        },
    );
    Layouts { camera_bgl, model_bgl, material_bgl }
}

/// The pipeline: sets 0, 1 and 2 for camera, model and material; the vertex
/// record in buffer slot 0; triangle lists with back faces culled; alpha
/// blending; depth-tested with write; one sample per pixel.
pub fn create_pipeline() -> (r: PipelineDescriptor)
    ensures
        r.bind_group_layouts@ == set_layouts(),
        r.vertex_buffers@.len() == 1,
        r.vertex_buffers@[0].array_stride == vertex_stride(),
        r.vertex_buffers@[0].step_mode == VertexStepMode::Vertex,
        r.vertex_buffers@[0].attributes@ == vertex_attributes(),
        r.topology == PrimitiveTopology::TriangleList,
        r.cull_mode == Some(Face::Back),
        r.blend == BlendMode::AlphaBlending,
        r.depth_stencil == depth_state(),
        r.sample_count == 1,
{
    let mut bind_group_layouts: Vec<LayoutId> = Vec::new();
    bind_group_layouts.push(LayoutId::Camera);
    bind_group_layouts.push(LayoutId::Model);
    bind_group_layouts.push(LayoutId::Material);
    let mut vertex_buffers: Vec<VertexBufferLayout> = Vec::new();
    vertex_buffers.push(Vertex::layout());
    PipelineDescriptor {
        bind_group_layouts,
        vertex_buffers,
        topology: PrimitiveTopology::TriangleList,
        cull_mode: Some(Face::Back),
        blend: BlendMode::AlphaBlending,
        depth_stencil: DepthState {
            format: TextureFormat::Depth32Float,
            depth_write_enabled: true,
            depth_compare: CompareFunction::Less,
        },
        sample_count: 1,
    }
}

/// The depth texture for a surface of the given size.
pub fn create_depth(w: u32, h: u32) -> (r: TextureDescriptor)
    ensures
        r == depth_descriptor(w, h),
{
    TextureDescriptor {
        width: w,
        height: h,
        sample_count: 1,
        format: TextureFormat::Depth32Float,
        usage: TextureUse::RenderAttachment,
    }
}

/// The texture of a material's image.
pub fn create_base_color(width: u32, height: u32) -> (r: TextureDescriptor)
    ensures
        r.width == width,
        r.height == height,
        r.sample_count == 1,
        r.format == TextureFormat::Rgba8UnormSrgb,
        r.usage == TextureUse::SampledCopyTarget,
{
    TextureDescriptor {
        width,
        height,
        sample_count: 1,
        format: TextureFormat::Rgba8UnormSrgb,
        usage: TextureUse::SampledCopyTarget,
    }
}

/// A frame binds only resource sets the pipeline has, each under the number
/// the pipeline gives its layout: camera in 0, model in 1, a material in 2.
pub proof fn lemma_frame_binds_match_pipeline(model: ModelView, k: int)
    requires
        model.wf(),
        0 <= k < frame_commands(model).len(),
    ensures
        frame_commands(model)[k] matches RenderCommand::SetBindGroup { index, group } ==> {
            &&& index < set_layouts().len()
            &&& set_layouts()[index as int] == layout_of(group)
            &&& group matches BindGroupId::Material(m) ==> m < model.materials.len()
        },
{
    lemma_frame_commands(model);
    if k >= 3 {
        let i = (k - 3) / 4;
        let j = (k - 3) % 4;
        assert(k == 3 + 4 * i + j);
        assert(0 <= i < model.meshes.len());
        let mesh = model.meshes[i];
        let material = bound_material(mesh.material_id, model.materials.len());
        assert(0 <= material < model.materials.len());
    }
}

/// A frame uses only the one vertex buffer slot the pipeline has, takes the
/// buffers of a mesh the model has, and reads indices of four bytes, the
/// width of the indices a mesh holds.
pub proof fn lemma_frame_buffers_match_pipeline(model: ModelView, k: int)
    requires
        model.wf(),
        0 <= k < frame_commands(model).len(),
    ensures
        frame_commands(model)[k] matches RenderCommand::SetVertexBuffer { slot, mesh } ==> slot
            == 0 && mesh < model.meshes.len(),
        frame_commands(model)[k] matches RenderCommand::SetIndexBuffer { mesh, format } ==> mesh
            < model.meshes.len() && index_bytes(format) == 4,
{
    lemma_frame_commands(model);
    if k >= 3 {
        let i = (k - 3) / 4;
        let j = (k - 3) % 4;
        assert(k == 3 + 4 * i + j);
        assert(0 <= i < model.meshes.len());
        let mesh = model.meshes[i];
    }
}

/// The depth texture fits the pipeline whatever the surface size: it has the
/// format the depth test expects and as many samples as the pipeline. A
/// uniform buffer holds sixteen numbers of four bytes.
pub proof fn lemma_depth_matches_pipeline(width: u32, height: u32)
    ensures
        depth_descriptor(width, height).format == depth_state().format,
        depth_descriptor(width, height).sample_count == 1,
        depth_descriptor(width, height).width == width,
        depth_descriptor(width, height).height == height,
        MATRIX_BYTES == 4 * (4 * 4),
{
}

} // verus!
