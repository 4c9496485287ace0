//! An imported asset as plain data: what the loader reads.
//!
//! Single-precision vertex attributes are carried as bit patterns.

use vstd::prelude::*;

verus! {

/// Topology of a primitive.
#[derive(Clone, Copy, Debug, PartialEq, Eq)]
pub enum Mode {
    Points,
    Lines,
    LineLoop,
    LineStrip,
    Triangles,
    TriangleStrip,
    TriangleFan,
}

/// Pixel format of a decoded image.
#[derive(Clone, Copy, Debug, PartialEq, Eq)]
pub enum Format {
    R8,
    R8G8,
    R8G8B8,
    R8G8B8A8,
    R16,
    R16G16,
    R16G16B16,
    R16G16B16A16,
    R32G32B32FLOAT,
    R32G32B32A32FLOAT,
}

/// A decoded image of the asset.
#[derive(Clone, Debug, PartialEq, Eq)]
pub struct ImageData {
    pub pixels: Vec<u8>,
    pub format: Format,
    pub width: u32,
    pub height: u32,
}

/// A material of the asset: the index of its base-colour image, where it has
/// a base-colour texture.
#[derive(Clone, Copy, Debug, PartialEq, Eq)]
pub struct MaterialDef {
    pub base_color_image: Option<usize>,
}

/// One primitive of a mesh: its topology, its attribute streams, its index
/// list where it has one, and the index of its material where it names one.
#[derive(Clone, Debug, PartialEq, Eq)]
pub struct Primitive {
    pub mode: Mode,
    pub positions: Option<Vec<[u32; 3]>>,
    pub normals: Option<Vec<[u32; 3]>>,
    pub tex_coords: Option<Vec<[u32; 2]>>,
    pub indices: Option<Vec<u32>>,
    pub material: Option<usize>,
}

/// A mesh: its primitives in order.
#[derive(Clone, Debug, PartialEq, Eq)]
pub struct Mesh {
    pub primitives: Vec<Primitive>,
}

/// A root node of a scene, with its mesh where it has one.
#[derive(Clone, Debug, PartialEq, Eq)]
pub struct Node {
    pub mesh: Option<Mesh>,
}

/// A scene: its root nodes in order.
#[derive(Clone, Debug, PartialEq, Eq)]
pub struct Scene {
    pub nodes: Vec<Node>,
}

/// Everything the loader reads of an imported asset.
#[derive(Clone, Debug, PartialEq, Eq)]
pub struct Asset {
    pub materials: Vec<MaterialDef>,
    pub images: Vec<ImageData>,
    pub scenes: Vec<Scene>,
}

/// The primitives of a node, in order; none where it has no mesh.
pub open spec fn node_primitives(node: Node) -> Seq<Primitive> {
    match node.mesh {
        Some(mesh) => mesh.primitives@,
        None => Seq::empty(),
    }
}

/// The primitives of a list of nodes, node after node.
pub open spec fn nodes_primitives(nodes: Seq<Node>) -> Seq<Primitive>
    decreases nodes.len(),
{
    if nodes.len() == 0 {
        Seq::empty()
    } else {
        nodes_primitives(nodes.drop_last()) + node_primitives(nodes.last())
    }
}

/// The primitives of a list of scenes, scene after scene.
pub open spec fn scenes_primitives(scenes: Seq<Scene>) -> Seq<Primitive>
    decreases scenes.len(),
{
    if scenes.len() == 0 {
        Seq::empty()
    } else {
        scenes_primitives(scenes.drop_last()) + nodes_primitives(scenes.last().nodes@)
    }
}

/// Every primitive of the asset in draw order: scene by scene, root node by
/// root node, primitive by primitive.
pub open spec fn asset_primitives(asset: Asset) -> Seq<Primitive> {
    scenes_primitives(asset.scenes@)
}

} // verus!
