//! The vertex record and its buffer layout, and the draw-ready model.

use vstd::prelude::*;

verus! {

/// Bit pattern of the single-precision number `1.0`.
pub const ONE_BITS: u32 = 0x3F80_0000;

/// One vertex: position, normal and texture coordinate, each component the
/// bit pattern of a single-precision number. Eight components, densely
/// packed, thirty-two bytes.
#[derive(Clone, Copy, Debug, PartialEq, Eq)]
pub struct Vertex {
    pub pos: [u32; 3],
    pub nrm: [u32; 3],
    pub uv: [u32; 2],
}

/// Component type and count of one vertex attribute.
#[derive(Clone, Copy, Debug, PartialEq, Eq)]
pub enum VertexFormat {
    Float32x2,
    Float32x3,
}

/// Whether a vertex buffer advances per vertex or per instance.
#[derive(Clone, Copy, Debug, PartialEq, Eq)]
pub enum VertexStepMode {
    Vertex,
    Instance,
}

/// One attribute of a vertex buffer: where it starts in the record and which
/// shader input it feeds.
#[derive(Clone, Copy, Debug, PartialEq, Eq)]
pub struct VertexAttribute {
    pub format: VertexFormat,
    pub offset: u64,
    pub shader_location: u32,
}

/// How the pipeline reads one vertex buffer.
#[derive(Clone, Debug, PartialEq, Eq)]
pub struct VertexBufferLayout {
    pub array_stride: u64,
    pub step_mode: VertexStepMode,
    pub attributes: Vec<VertexAttribute>,
}

impl VertexFormat {
    /// Size of the attribute in bytes: four per component.
    pub open spec fn spec_size(self) -> u64 {
        match self {
            VertexFormat::Float32x2 => 8,
            VertexFormat::Float32x3 => 12,
        }
    }

    /// Size of the attribute in bytes.
    pub fn size(&self) -> (r: u64)
        ensures
            r == self.spec_size(),
    {
        match self {
            VertexFormat::Float32x2 => 8,
            VertexFormat::Float32x3 => 12,
        }
    }
}

/// The attributes of the vertex record: position at location 0, normal at
/// location 1, texture coordinate at location 2.
pub open spec fn vertex_attributes() -> Seq<VertexAttribute> {
    seq![
        VertexAttribute { format: VertexFormat::Float32x3, offset: 0, shader_location: 0 },
        VertexAttribute { format: VertexFormat::Float32x3, offset: 12, shader_location: 1 },
        VertexAttribute { format: VertexFormat::Float32x2, offset: 24, shader_location: 2 },
    ]
}

/// Number of bytes one vertex occupies in a vertex buffer.
pub open spec fn vertex_stride() -> u64 {
    32
}

/// The attributes lie end to end from offset zero and fill exactly `stride`
/// bytes, and attribute `i` feeds shader location `i`.
pub open spec fn densely_packed(attributes: Seq<VertexAttribute>, stride: u64) -> bool {
    &&& attributes.len() > 0
    &&& attributes[0].offset == 0
    &&& forall|i: int|
        0 <= i < attributes.len() - 1 ==> #[trigger] attributes[i + 1].offset
            == attributes[i].offset + attributes[i].format.spec_size()
    &&& attributes.last().offset + attributes.last().format.spec_size() == stride
    &&& forall|i: int| 0 <= i < attributes.len() ==> #[trigger] attributes[i].shader_location == i
}

impl Vertex {
    /// The buffer layout of the vertex record.
    pub fn layout() -> (r: VertexBufferLayout)
        ensures
            r.array_stride == vertex_stride(),
            r.step_mode == VertexStepMode::Vertex,
            r.attributes@ == vertex_attributes(),
    {
        let mut attributes: Vec<VertexAttribute> = Vec::new();
        attributes.push(
            VertexAttribute { format: VertexFormat::Float32x3, offset: 0, shader_location: 0 },
        );
        attributes.push(
            VertexAttribute { format: VertexFormat::Float32x3, offset: 12, shader_location: 1 },
        );
        attributes.push(
            VertexAttribute { format: VertexFormat::Float32x2, offset: 24, shader_location: 2 },
        );
        VertexBufferLayout { array_stride: 32, step_mode: VertexStepMode::Vertex, attributes }
    }
}

/// The layout of the vertex record leaves no gap and no overlap: position,
/// normal and texture coordinate follow one another and together make up the
/// whole stride, which is four bytes for each of the record's eight
/// components.
pub proof fn lemma_vertex_layout_packed()
    ensures
        densely_packed(vertex_attributes(), vertex_stride()),
        vertex_stride() == 4 * (3 + 3 + 2),
{
}

/// An image of four bytes per pixel: red, green, blue, alpha, row by row.
#[derive(Clone, Debug, PartialEq, Eq)]
pub struct RgbaImage {
    pub width: u32,
    pub height: u32,
    pub pixels: Vec<u8>,
}

/// What an [`RgbaImage`] is: its dimensions and its bytes.
pub struct ImageView {
    pub width: u32,
    pub height: u32,
    pub pixels: Seq<u8>,
}

impl View for RgbaImage {
    type V = ImageView;

    open spec fn view(&self) -> ImageView {
        ImageView { width: self.width, height: self.height, pixels: self.pixels@ }
    }
}

/// The single opaque white pixel that stands in for a missing texture.
pub open spec fn white_pixel() -> ImageView {
    ImageView { width: 1, height: 1, pixels: seq![255u8, 255u8, 255u8, 255u8] }
}

/// How a material's texture is sampled.
#[derive(Clone, Copy, Debug, PartialEq, Eq)]
pub enum SamplerMode {
    /// Nearest filtering, clamped at the edges.
    Default,
    /// Linear magnification and minification, repeating in every direction.
    LinearRepeat,
}

/// One material: the base-colour image to upload and how to sample it.
#[derive(Clone, Debug, PartialEq, Eq)]
pub struct Material {
    pub image: RgbaImage,
    pub sampler: SamplerMode,
}

/// What a [`Material`] is.
pub struct MaterialView {
    pub image: ImageView,
    pub sampler: SamplerMode,
}

impl View for Material {
    type V = MaterialView;

    open spec fn view(&self) -> MaterialView {
        MaterialView { image: self.image@, sampler: self.sampler }
    }
}

/// One mesh ready for upload: its vertices, its indices, how many indices a
/// draw covers, and the material it asks for.
#[derive(Clone, Debug, PartialEq, Eq)]
pub struct GpuMesh {
    pub vertices: Vec<Vertex>,
    pub indices: Vec<u32>,
    pub index_count: u32,
    pub material_id: usize,
}

/// What a [`GpuMesh`] is.
pub struct MeshView {
    pub vertices: Seq<Vertex>,
    pub indices: Seq<u32>,
    pub index_count: u32,
    pub material_id: usize,
}

impl View for GpuMesh {
    type V = MeshView;

    open spec fn view(&self) -> MeshView {
        MeshView {
            vertices: self.vertices@,
            indices: self.indices@,
            index_count: self.index_count,
            material_id: self.material_id,
        }
    }
}

/// The views of a list of meshes, in order.
pub open spec fn mesh_views(meshes: Seq<GpuMesh>) -> Seq<MeshView> {
    meshes.map_values(|m: GpuMesh| m@)
}

/// The views of a list of materials, in order.
pub open spec fn material_views(materials: Seq<Material>) -> Seq<MaterialView> {
    materials.map_values(|m: Material| m@)
}

/// A loaded model: meshes in draw order and the materials they refer to.
/// A model always has at least one material.
#[derive(Debug)]
pub struct Model {
    pub(crate) meshes: Vec<GpuMesh>,
    pub(crate) materials: Vec<Material>,
}

/// What a [`Model`] is.
pub struct ModelView {
    pub meshes: Seq<MeshView>,
    pub materials: Seq<MaterialView>,
}

impl ModelView {
    /// A model has at least one material.
    pub open spec fn wf(self) -> bool {
        self.materials.len() >= 1
    }
}

impl View for Model {
    type V = ModelView;

    closed spec fn view(&self) -> ModelView {
        ModelView { meshes: mesh_views(self.meshes@), materials: material_views(self.materials@) }
    }
}

impl Model {
    #[verifier::type_invariant]
    spec fn inv(self) -> bool {
        self.materials@.len() >= 1
    }

    /// Puts meshes and materials together.
    pub(crate) fn assemble(meshes: Vec<GpuMesh>, materials: Vec<Material>) -> (r: Model)
        requires
            materials@.len() >= 1,
        ensures
            r@.meshes == mesh_views(meshes@),
            r@.materials == material_views(materials@),
    {
        Model { meshes, materials }
    }

    /// The meshes, in draw order.
    pub fn meshes(&self) -> (r: &Vec<GpuMesh>)
        ensures
            mesh_views(r@) == self@.meshes,
    {
        &self.meshes
    }

    /// The materials. There is at least one.
    pub fn materials(&self) -> (r: &Vec<Material>)
        ensures
            material_views(r@) == self@.materials,
            r@.len() >= 1,
            self@.wf(),
    {
        proof {
            use_type_invariant(self);
        }
        &self.materials
    }
}

} // verus!
