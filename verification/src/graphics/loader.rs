//! From an imported asset to a draw-ready model.

use vstd::prelude::*;

use crate::graphics::asset::{
    asset_primitives, node_primitives, nodes_primitives, scenes_primitives, Asset, ImageData,
    MaterialDef, Mode, Node, Primitive, Scene,
};
use crate::graphics::model::{
    material_views, mesh_views, white_pixel, GpuMesh, Material, MaterialView, MeshView, Model,
    ModelView, SamplerMode, Vertex, ONE_BITS,
};
use crate::graphics::texture::{make_texture_material, make_white_material, texture_of};
use crate::graphics::frame::{
    bound_material, frame_commands, lemma_frame_commands, BindGroupId, RenderCommand,
};

verus! {

/// Why an asset cannot be loaded.
#[derive(Clone, Copy, Debug, PartialEq, Eq)]
pub enum LoadError {
    /// A primitive is not a triangle list.
    UnsupportedMode,
    /// A primitive has no positions.
    MissingPositions,
}

/// The normal given to vertices of a primitive without normals: straight up.
pub open spec fn default_normal() -> Seq<u32> {
    seq![0u32, ONE_BITS, 0u32]
}

/// The texture coordinate given to vertices of a primitive without texture
/// coordinates: the origin.
pub open spec fn default_uv() -> Seq<u32> {
    seq![0u32, 0u32]
}

/// The smaller of two lengths.
pub open spec fn shorter(a: nat, b: nat) -> nat {
    if a <= b {
        a
    } else {
        b
    }
}

/// What is wrong with a primitive, if anything: its topology is judged
/// first, then the presence of positions.
pub open spec fn rejection(p: Primitive) -> Option<LoadError> {
    if p.mode != Mode::Triangles {
        Some(LoadError::UnsupportedMode)
    } else if p.positions is None {
        Some(LoadError::MissingPositions)
    } else {
        None
    }
}

/// Number of vertices a primitive yields: as many as its shortest attribute
/// stream holds.
pub open spec fn vertex_count(p: Primitive) -> nat {
    let n = p.positions->0@.len();
    let n = match p.normals {
        Some(ns) => shorter(n, ns@.len()),
        None => n,
    };
    match p.tex_coords {
        Some(ts) => shorter(n, ts@.len()),
        None => n,
    }
}

/// Vertex `i` of a primitive is what its streams hold at `i`, with the
/// default normal and texture coordinate where a stream is absent.
pub open spec fn is_vertex_of(v: Vertex, p: Primitive, i: int) -> bool {
    &&& v.pos == p.positions->0@[i]
    &&& match p.normals {
        Some(ns) => v.nrm == ns@[i],
        None => v.nrm@ == default_normal(),
    }
    &&& match p.tex_coords {
        Some(ts) => v.uv == ts@[i],
        None => v.uv@ == default_uv(),
    }
}

/// The vertices of a primitive.
pub open spec fn are_vertices_of(vs: Seq<Vertex>, p: Primitive) -> bool {
    &&& vs.len() == vertex_count(p)
    &&& forall|i: int| 0 <= i < vs.len() ==> is_vertex_of(#[trigger] vs[i], p, i)
}

/// The index list of a primitive that yields `n` vertices: its own where it
/// has one, else `0, 1, 2, ...` up to `n` taken as a 32-bit count.
pub open spec fn indices_of(p: Primitive, n: nat) -> Seq<u32> {
    match p.indices {
        Some(ix) => ix@,
        None => Seq::new((n as u32) as nat, |i: int| i as u32),
    }
}

/// The mesh built from an accepted primitive.
pub open spec fn is_mesh_of(m: MeshView, p: Primitive) -> bool {
    &&& are_vertices_of(m.vertices, p)
    &&& m.indices == indices_of(p, vertex_count(p))
    &&& m.index_count == m.indices.len() as u32
    &&& m.material_id == match p.material {
        Some(ix) => ix,
        None => 0,
    }
}

/// The meshes built from a list of accepted primitives, one each, in order.
pub open spec fn are_meshes_of(ms: Seq<MeshView>, ps: Seq<Primitive>) -> bool {
    &&& ms.len() == ps.len()
    &&& forall|i: int| 0 <= i < ms.len() ==> is_mesh_of(#[trigger] ms[i], ps[i])
}

/// The rejection of the first primitive that has one.
pub open spec fn first_rejection(ps: Seq<Primitive>) -> Option<LoadError>
    decreases ps.len(),
{
    if ps.len() == 0 {
        None
    } else {
        match first_rejection(ps.drop_last()) {
            Some(e) => Some(e),
            None => rejection(ps.last()),
        }
    }
}

/// The image behind a material definition: the one its index names, if the
/// asset has it.
pub open spec fn material_image(asset: Asset, def: MaterialDef) -> Option<ImageData> {
    match def.base_color_image {
        Some(ix) => if ix < asset.images@.len() {
            Some(asset.images@[ix as int])
        } else {
            None
        },
        None => None,
    }
}

/// The materials of a model: one per material of the asset, or a single
/// white one where the asset defines none.
pub open spec fn materials_of(asset: Asset) -> Seq<MaterialView> {
    if asset.materials@.len() == 0 {
        seq![MaterialView { image: white_pixel(), sampler: SamplerMode::Default }]
    } else {
        Seq::new(
            asset.materials@.len(),
            |i: int|
                MaterialView {
                    image: texture_of(material_image(asset, asset.materials@[i])),
                    sampler: SamplerMode::LinearRepeat,
                },
        )
    }
}

/// `first_rejection` reads a list front to back.
pub proof fn lemma_first_rejection_concat(a: Seq<Primitive>, b: Seq<Primitive>)
    ensures
        first_rejection(a + b) == match first_rejection(a) {
            Some(e) => Some(e),
            None => first_rejection(b),
        },
    decreases b.len(),
{
    if b.len() == 0 {
        assert(a + b =~= a);
    } else {
        assert((a + b).drop_last() =~= a + b.drop_last());
        assert((a + b).last() == b.last());
        lemma_first_rejection_concat(a, b.drop_last());
    }
}

/// A list of primitives is accepted exactly when each of them is; otherwise
/// the error is that of the earliest rejected primitive.
pub proof fn lemma_first_rejection(ps: Seq<Primitive>)
    ensures
        first_rejection(ps) is None <==> forall|i: int|
            0 <= i < ps.len() ==> rejection(#[trigger] ps[i]) is None,
        first_rejection(ps) matches Some(e) ==> exists|k: int|
            0 <= k < ps.len() && #[trigger] rejection(ps[k]) == Some(e) && forall|j: int|
                0 <= j < k ==> rejection(#[trigger] ps[j]) is None,
    decreases ps.len(),
{
    if ps.len() > 0 {
        let front = ps.drop_last();
        lemma_first_rejection(front);
        assert forall|i: int| 0 <= i < front.len() implies front[i] == ps[i] by {}
        match first_rejection(front) {
            Some(e) => {
                let k = choose|k: int|
                    0 <= k < front.len() && #[trigger] rejection(front[k]) == Some(e) && forall|
                        j: int,
                    |
                        0 <= j < k ==> rejection(#[trigger] front[j]) is None;
                assert(rejection(ps[k]) == Some(e));
                assert forall|j: int| 0 <= j < k implies rejection(#[trigger] ps[j]) is None by {
                    assert(front[j] == ps[j]);
                }
            },
            None => {
                assert forall|j: int| 0 <= j < ps.len() - 1 implies rejection(
                    #[trigger] ps[j],
                ) is None by {
                    assert(front[j] == ps[j]);
                }
                if rejection(ps.last()) is Some {
                    let k = ps.len() - 1;
                    assert(rejection(ps[k]) == rejection(ps.last()));
                }
            },
        }
    }
}

/// The vertices of a primitive with the given positions: the streams zipped
/// up to the shortest, with defaults where a stream is absent.
fn build_vertices(prim: &Primitive, positions: &Vec<[u32; 3]>) -> (verts: Vec<Vertex>)
    requires
        prim.positions == Some(*positions),
    ensures
        are_vertices_of(verts@, *prim),
{
    let mut n: usize = positions.len();
    match &prim.normals {
        Some(ns) => {
            if ns.len() < n {
                n = ns.len();
            }
        },
        None => {},
    }
    match &prim.tex_coords {
        Some(ts) => {
            if ts.len() < n {
                n = ts.len();
            }
        },
        None => {},
    }
    let mut verts: Vec<Vertex> = Vec::new();
    let mut i: usize = 0;
    while i < n
        invariant
            prim.positions == Some(*positions),
            n == vertex_count(*prim),
            i <= n,
            verts@.len() == i,
            forall|k: int| 0 <= k < i ==> is_vertex_of(#[trigger] verts@[k], *prim, k),
        decreases n - i,
    {
        let nrm: [u32; 3] = match &prim.normals {
            Some(ns) => ns[i],
            None => [0, ONE_BITS, 0],
        };
        let uv: [u32; 2] = match &prim.tex_coords {
            Some(ts) => ts[i],
            None => [0, 0],
        };
        let v = Vertex { pos: positions[i], nrm, uv };
        proof {
            if prim.normals is None {
                assert(v.nrm@ =~= default_normal());
            }
            if prim.tex_coords is None {
                assert(v.uv@ =~= default_uv());
            }
            assert(is_vertex_of(v, *prim, i as int));
        }
        verts.push(v);
        i += 1;
    }
    verts
}

/// The index list of a primitive that yielded `n` vertices.
fn build_indices(prim: &Primitive, n: usize) -> (indices: Vec<u32>)
    ensures
        indices@ == indices_of(*prim, n as nat),
{
    match &prim.indices {
        Some(ix) => ix.clone(),
        None => {
            let count: u32 = #[verifier::truncate]
            (n as u32);
            let mut indices: Vec<u32> = Vec::new();
            let mut i: u32 = 0;
            while i < count
                invariant
                    i <= count,
                    indices@.len() == i,
                    forall|k: int| 0 <= k < i ==> indices@[k] == k as u32,
                decreases count - i,
            {
                indices.push(i);
                i += 1;
            }
            assert(indices@ =~= indices_of(*prim, n as nat));
            indices
        },
    }
}

/// The mesh of one primitive, or why the primitive is rejected.
pub fn build_mesh(prim: &Primitive) -> (r: Result<GpuMesh, LoadError>)
    ensures
        match r {
            Ok(mesh) => rejection(*prim) is None && is_mesh_of(mesh@, *prim),
            Err(e) => rejection(*prim) == Some(e),
        },
{
    match prim.mode {
        Mode::Triangles => {},
        _ => {
            return Err(LoadError::UnsupportedMode);
        },
    }
    match &prim.positions {
        None => Err(LoadError::MissingPositions),
        Some(positions) => {
            let vertices = build_vertices(prim, positions);
            let indices = build_indices(prim, vertices.len());
            let index_count: u32 = #[verifier::truncate]
            (indices.len() as u32);
            let material_id: usize = match prim.material {
                Some(ix) => ix,
                None => 0,
            };
            Ok(GpuMesh { vertices, indices, index_count, material_id })
        },
    }
}

/// Appends the meshes of `prims` to `meshes`, stopping at the first
/// rejected primitive.
fn append_primitives(meshes: &mut Vec<GpuMesh>, prims: &Vec<Primitive>, Ghost(done): Ghost<
    Seq<Primitive>,
>) -> (r: Result<(), LoadError>)
    requires
        are_meshes_of(mesh_views(old(meshes)@), done),
        first_rejection(done) is None,
    ensures
        match r {
            Ok(()) => are_meshes_of(mesh_views(final(meshes)@), done + prims@) && first_rejection(
                done + prims@,
            ) is None,
            Err(e) => first_rejection(done + prims@) == Some(e),
        },
{
    let mut i: usize = 0;
    proof {
        assert(done + prims@.take(0) =~= done);
    }
    while i < prims.len()
        invariant
            i <= prims@.len(),
            are_meshes_of(mesh_views(meshes@), done + prims@.take(i as int)),
            first_rejection(done + prims@.take(i as int)) is None,
        decreases prims@.len() - i,
    {
        let ghost before = done + prims@.take(i as int);
        let ghost after = done + prims@.take(i + 1);
        proof {
            assert(after.drop_last() =~= before);
            assert(after.last() == prims@[i as int]);
        }
        match build_mesh(&prims[i]) {
            Ok(mesh) => {
                let ghost old_views = mesh_views(meshes@);
                meshes.push(mesh);
                proof {
                    assert(mesh_views(meshes@) =~= old_views.push(mesh@));
                    assert forall|k: int| 0 <= k < after.len() implies is_mesh_of(
                        #[trigger] mesh_views(meshes@)[k],
                        after[k],
                    ) by {
                        if k < before.len() {
                            assert(after[k] == before[k]);
                            assert(mesh_views(meshes@)[k] == old_views[k]);
                        }
                    }
                }
            },
            Err(e) => {
                proof {
                    let rest = prims@.skip(i + 1);
                    assert(done + prims@ =~= after + rest);
                    lemma_first_rejection_concat(after, rest);
                }
                return Err(e);
            },
        }
        i += 1;
    }
    proof {
        assert(prims@.take(i as int) =~= prims@);
    }
    Ok(())
}

/// Appends the meshes of the nodes' primitives to `meshes`, stopping at the
/// first rejected primitive.
fn append_nodes(meshes: &mut Vec<GpuMesh>, nodes: &Vec<Node>, Ghost(done): Ghost<
    Seq<Primitive>,
>) -> (r: Result<(), LoadError>)
    requires
        are_meshes_of(mesh_views(old(meshes)@), done),
        first_rejection(done) is None,
    ensures
        match r {
            Ok(()) => are_meshes_of(
                mesh_views(final(meshes)@),
                done + nodes_primitives(nodes@),
            ) && first_rejection(done + nodes_primitives(nodes@)) is None,
            Err(e) => first_rejection(done + nodes_primitives(nodes@)) == Some(e),
        },
{
    let mut i: usize = 0;
    proof {
        assert(nodes@.take(0) =~= Seq::<Node>::empty());
        assert(done + nodes_primitives(nodes@.take(0)) =~= done);
    }
    while i < nodes.len()
        invariant
            i <= nodes@.len(),
            are_meshes_of(mesh_views(meshes@), done + nodes_primitives(nodes@.take(i as int))),
            first_rejection(done + nodes_primitives(nodes@.take(i as int))) is None,
        decreases nodes@.len() - i,
    {
        let ghost before = done + nodes_primitives(nodes@.take(i as int));
        let ghost here = node_primitives(nodes@[i as int]);
        proof {
            assert(nodes@.take(i + 1).drop_last() =~= nodes@.take(i as int));
            assert(nodes@.take(i + 1).last() == nodes@[i as int]);
            assert(done + nodes_primitives(nodes@.take(i + 1)) =~= before + here);
        }
        match &nodes[i].mesh {
            Some(mesh) => {
                match append_primitives(meshes, &mesh.primitives, Ghost(before)) {
                    Ok(()) => {},
                    Err(e) => {
                        proof {
                            lemma_nodes_primitives_split(nodes@, i + 1);
                            let rest = nodes_primitives(nodes@.skip(i + 1));
                            assert(done + nodes_primitives(nodes@) =~= (before + here) + rest);
                            lemma_first_rejection_concat(before + here, rest);
                        }
                        return Err(e);
                    },
                }
            },
            None => {
                proof {
                    assert(before + here =~= before);
                }
            },
        }
        i += 1;
    }
    proof {
        assert(nodes@.take(i as int) =~= nodes@);
    }
    Ok(())
}

/// The primitives of a list of nodes are those of any front part followed by
/// those of the rest.
pub proof fn lemma_nodes_primitives_split(nodes: Seq<Node>, at: int)
    requires
        0 <= at <= nodes.len(),
    ensures
        nodes_primitives(nodes) == nodes_primitives(nodes.take(at)) + nodes_primitives(
            nodes.skip(at),
        ),
    decreases nodes.len() - at,
{
    if at == nodes.len() {
        assert(nodes.take(at) =~= nodes);
        assert(nodes.skip(at) =~= Seq::<Node>::empty());
        assert(nodes_primitives(nodes) + nodes_primitives(nodes.skip(at)) =~= nodes_primitives(
            nodes,
        ));
    } else {
        let front = nodes.drop_last();
        lemma_nodes_primitives_split(front, at);
        assert(front.take(at) =~= nodes.take(at));
        assert(nodes.skip(at).drop_last() =~= front.skip(at));
        assert(nodes.skip(at).last() == nodes.last());
        assert(nodes_primitives(nodes) =~= nodes_primitives(nodes.take(at)) + nodes_primitives(
            nodes.skip(at),
        ));
    }
}

/// The primitives of a list of scenes are those of any front part followed
/// by those of the rest.
pub proof fn lemma_scenes_primitives_split(scenes: Seq<Scene>, at: int)
    requires
        0 <= at <= scenes.len(),
    ensures
        scenes_primitives(scenes) == scenes_primitives(scenes.take(at)) + scenes_primitives(
            scenes.skip(at),
        ),
    decreases scenes.len() - at,
{
    if at == scenes.len() {
        assert(scenes.take(at) =~= scenes);
        assert(scenes.skip(at) =~= Seq::<Scene>::empty());
        assert(scenes_primitives(scenes) + scenes_primitives(scenes.skip(at))
            =~= scenes_primitives(scenes));
    } else {
        let front = scenes.drop_last();
        lemma_scenes_primitives_split(front, at);
        assert(front.take(at) =~= scenes.take(at));
        assert(scenes.skip(at).drop_last() =~= front.skip(at));
        assert(scenes.skip(at).last() == scenes.last());
        assert(scenes_primitives(scenes) =~= scenes_primitives(scenes.take(at))
            + scenes_primitives(scenes.skip(at)));
    }
}

/// The meshes of every primitive of the scenes, in draw order, or the
/// rejection of the first primitive that has one.
fn build_meshes(scenes: &Vec<Scene>) -> (r: Result<Vec<GpuMesh>, LoadError>)
    ensures
        match r {
            Ok(meshes) => are_meshes_of(mesh_views(meshes@), scenes_primitives(scenes@))
                && first_rejection(scenes_primitives(scenes@)) is None,
            Err(e) => first_rejection(scenes_primitives(scenes@)) == Some(e),
        },
{
    let mut meshes: Vec<GpuMesh> = Vec::new();
    let mut i: usize = 0;
    proof {
        assert(scenes@.take(0) =~= Seq::<Scene>::empty());
    }
    while i < scenes.len()
        invariant
            i <= scenes@.len(),
            are_meshes_of(mesh_views(meshes@), scenes_primitives(scenes@.take(i as int))),
            first_rejection(scenes_primitives(scenes@.take(i as int))) is None,
        decreases scenes@.len() - i,
    {
        let ghost before = scenes_primitives(scenes@.take(i as int));
        proof {
            assert(scenes@.take(i + 1).drop_last() =~= scenes@.take(i as int));
            assert(scenes@.take(i + 1).last() == scenes@[i as int]);
        }
        match append_nodes(&mut meshes, &scenes[i].nodes, Ghost(before)) {
            Ok(()) => {},
            Err(e) => {
                proof {
                    lemma_scenes_primitives_split(scenes@, i + 1);
                    lemma_first_rejection_concat(
                        scenes_primitives(scenes@.take(i + 1)),
                        scenes_primitives(scenes@.skip(i + 1)),
                    );
                }
                return Err(e);
            },
        }
        i += 1;
    }
    proof {
        assert(scenes@.take(i as int) =~= scenes@);
    }
    Ok(meshes)
}

/// The materials of a model: one per material of the asset, or the white
/// fallback where the asset defines none.
fn build_materials(asset: &Asset) -> (materials: Vec<Material>)
    ensures
        material_views(materials@) == materials_of(*asset),
        materials@.len() >= 1,
{
    let mut materials: Vec<Material> = Vec::new();
    if asset.materials.len() == 0 {
        materials.push(make_white_material());
        assert(material_views(materials@) =~= materials_of(*asset));
    } else {
        let mut i: usize = 0;
        while i < asset.materials.len()
            invariant
                i <= asset.materials@.len(),
                asset.materials@.len() > 0,
                materials@.len() == i,
                forall|k: int|
                    0 <= k < i ==> (#[trigger] materials@[k])@ == materials_of(*asset)[k],
            decreases asset.materials@.len() - i,
        {
            let img: Option<&ImageData> = match asset.materials[i].base_color_image {
                Some(ix) => if ix < asset.images.len() {
                    Some(&asset.images[ix])
                } else {
                    None
                },
                None => None,
            };
            let material = make_texture_material(img);
            materials.push(material);
            i += 1;
        }
        assert(material_views(materials@) =~= materials_of(*asset));
    }
    materials
}

/// Loads an asset: its materials, then a mesh for every primitive of every
/// root node of every scene, in that order. The load fails on the first
/// primitive that is not a triangle list or has no positions.
pub fn load_gltf_model(asset: &Asset) -> (r: Result<Model, LoadError>)
    ensures
        match r {
            Ok(model) => {
                &&& first_rejection(asset_primitives(*asset)) is None
                &&& model@.materials == materials_of(*asset)
                &&& are_meshes_of(model@.meshes, asset_primitives(*asset))
            },
            Err(e) => first_rejection(asset_primitives(*asset)) == Some(e),
        },
{
    let materials = build_materials(asset);
    match build_meshes(&asset.scenes) {
        Ok(meshes) => Ok(Model::assemble(meshes, materials)),
        Err(e) => Err(e),
    }
}

/// A primitive without normals and texture coordinates yields one vertex per
/// position: the position as it is, the normal straight up, the texture
/// coordinate at the origin.
pub proof fn lemma_defaults_without_normals_and_uvs(prim: Primitive, mesh: MeshView)
    requires
        rejection(prim) is None,
        prim.normals is None,
        prim.tex_coords is None,
        is_mesh_of(mesh, prim),
    ensures
        mesh.vertices.len() == prim.positions->0@.len(),
        forall|i: int|
            0 <= i < mesh.vertices.len() ==> {
                &&& (#[trigger] mesh.vertices[i]).pos == prim.positions->0@[i]
                &&& mesh.vertices[i].nrm@ == seq![0u32, ONE_BITS, 0u32]
                &&& mesh.vertices[i].uv@ == seq![0u32, 0u32]
            },
{
    assert forall|i: int| 0 <= i < mesh.vertices.len() implies {
        &&& (#[trigger] mesh.vertices[i]).pos == prim.positions->0@[i]
        &&& mesh.vertices[i].nrm@ == seq![0u32, ONE_BITS, 0u32]
        &&& mesh.vertices[i].uv@ == seq![0u32, 0u32]
    } by {
        assert(is_vertex_of(mesh.vertices[i], prim, i));
    }
}

/// A primitive whose streams all have the same length yields exactly that
/// many vertices, each holding what the streams hold at its place; without
/// an index list of its own it is drawn in vertex order.
pub proof fn lemma_mesh_of_even_streams(prim: Primitive, mesh: MeshView)
    requires
        rejection(prim) is None,
        prim.normals matches Some(ns) ==> ns@.len() == prim.positions->0@.len(),
        prim.tex_coords matches Some(ts) ==> ts@.len() == prim.positions->0@.len(),
        is_mesh_of(mesh, prim),
    ensures
        mesh.vertices.len() == prim.positions->0@.len(),
        forall|i: int|
            0 <= i < mesh.vertices.len() ==> (#[trigger] mesh.vertices[i]).pos
                == prim.positions->0@[i],
        prim.indices matches Some(ix) ==> mesh.indices == ix@,
        prim.indices is None && mesh.vertices.len() <= u32::MAX ==> {
            &&& mesh.indices.len() == mesh.vertices.len()
            &&& mesh.index_count == mesh.vertices.len()
            &&& forall|i: int| 0 <= i < mesh.indices.len() ==> #[trigger] mesh.indices[i] == i
        },
{
    assert forall|i: int| 0 <= i < mesh.vertices.len() implies (#[trigger] mesh.vertices[i]).pos
        == prim.positions->0@[i] by {
        assert(is_vertex_of(mesh.vertices[i], prim, i));
    }
}

/// An asset that defines no material loads with exactly one material, the
/// white pixel, and every mesh of the model is drawn with it.
pub proof fn lemma_white_fallback_for_every_mesh(asset: Asset, model: ModelView)
    requires
        asset.materials@.len() == 0,
        model.materials == materials_of(asset),
        are_meshes_of(model.meshes, asset_primitives(asset)),
    ensures
        model.materials.len() == 1,
        model.materials[0].image == white_pixel(),
        forall|i: int|
            0 <= i < model.meshes.len() ==> bound_material(
                (#[trigger] model.meshes[i]).material_id,
                model.materials.len(),
            ) == 0,
        forall|i: int|
            0 <= i < model.meshes.len() ==> #[trigger] frame_commands(model)[3 + 4 * i] == (
            RenderCommand::SetBindGroup { index: 2, group: BindGroupId::Material(0) }),
{
    lemma_frame_commands(model);
    assert forall|i: int| 0 <= i < model.meshes.len() implies #[trigger] frame_commands(
        model,
    )[3 + 4 * i] == (RenderCommand::SetBindGroup { index: 2, group: BindGroupId::Material(0) }) by {
        let m = model.meshes[i];
        assert(bound_material(m.material_id, model.materials.len()) == 0);
    }
}

/// A model has one mesh per primitive of the asset, in draw order, each with
/// the material index its primitive names, or zero where it names none.
pub proof fn lemma_one_mesh_per_primitive(asset: Asset, model: ModelView)
    requires
        are_meshes_of(model.meshes, asset_primitives(asset)),
    ensures
        model.meshes.len() == asset_primitives(asset).len(),
        forall|i: int|
            0 <= i < model.meshes.len() ==> (#[trigger] model.meshes[i]).material_id == (
            match asset_primitives(asset)[i].material {
                Some(ix) => ix,
                None => 0,
            }),
{
    assert forall|i: int| 0 <= i < model.meshes.len() implies (
    #[trigger] model.meshes[i]).material_id == (match asset_primitives(asset)[i].material {
        Some(ix) => ix,
        None => 0,
    }) by {
        assert(is_mesh_of(model.meshes[i], asset_primitives(asset)[i]));
    }
}

} // verus!
