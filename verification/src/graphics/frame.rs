//! The commands of a frame's render pass.

use vstd::prelude::*;

use crate::graphics::model::{MeshView, ModelView};

verus! {

/// A resource set bound while drawing.
#[derive(Clone, Copy, Debug, PartialEq, Eq)]
pub enum BindGroupId {
    /// The camera matrix.
    Camera,
    /// The model's transform.
    Model,
    /// The material at this position in the model's material list.
    Material(usize),
}

/// Width of the indices in an index buffer.
#[derive(Clone, Copy, Debug, PartialEq, Eq)]
pub enum IndexFormat {
    Uint16,
    Uint32,
}

/// One command of a render pass. Meshes are named by their position in the
/// model's mesh list.
#[derive(Clone, Copy, Debug, PartialEq, Eq)]
pub enum RenderCommand {
    SetPipeline,
    SetBindGroup { index: u32, group: BindGroupId },
    SetVertexBuffer { slot: u32, mesh: usize },
    SetIndexBuffer { mesh: usize, format: IndexFormat },
    /// Draws the indices from `first_index` up to `end_index`, for the
    /// instances from `first_instance` up to `end_instance`.
    DrawIndexed {
        first_index: u32,
        end_index: u32,
        base_vertex: i32,
        first_instance: u32,
        end_instance: u32,
    },
}

/// The material a mesh is drawn with: the one it asks for, or the last one
/// where it asks for one the model does not have.
pub open spec fn bound_material(material_id: usize, materials: nat) -> int {
    if material_id < materials {
        material_id as int
    } else {
        materials - 1
    }
}

/// What every pass starts with: the pipeline, the camera in set 0 and the
/// model's transform in set 1.
pub open spec fn pass_prelude() -> Seq<RenderCommand> {
    seq![
        RenderCommand::SetPipeline,
        RenderCommand::SetBindGroup { index: 0, group: BindGroupId::Camera },
        RenderCommand::SetBindGroup { index: 1, group: BindGroupId::Model },
    ]
}

/// The commands that draw mesh `i`: its material in set 2, its vertex buffer
/// in slot 0, its index buffer, and one instance of its whole index range.
pub open spec fn mesh_commands(i: int, mesh: MeshView, materials: nat) -> Seq<RenderCommand> {
    seq![
        RenderCommand::SetBindGroup {
            index: 2,
            group: BindGroupId::Material(bound_material(mesh.material_id, materials) as usize),
        },
        RenderCommand::SetVertexBuffer { slot: 0, mesh: i as usize },
        RenderCommand::SetIndexBuffer { mesh: i as usize, format: IndexFormat::Uint32 },
        RenderCommand::DrawIndexed {
            first_index: 0,
            end_index: mesh.index_count,
            base_vertex: 0,
            first_instance: 0,
            end_instance: 1,
        },
    ]
}

/// The commands that draw the first `n` meshes, mesh after mesh.
pub open spec fn meshes_commands(meshes: Seq<MeshView>, materials: nat, n: nat) -> Seq<
    RenderCommand,
>
    decreases n,
{
    if n == 0 {
        Seq::empty()
    } else {
        meshes_commands(meshes, materials, (n - 1) as nat) + mesh_commands(
            n - 1,
            meshes[n - 1],
            materials,
        )
    }
}

/// The commands of one frame's render pass.
pub open spec fn frame_commands(model: ModelView) -> Seq<RenderCommand> {
    pass_prelude() + meshes_commands(model.meshes, model.materials.len(), model.meshes.len())
}

/// A mesh is always drawn with a material the model has: its own where that
/// exists, the last one otherwise.
pub proof fn lemma_bound_material(material_id: usize, materials: nat)
    requires
        materials >= 1,
    ensures
        0 <= bound_material(material_id, materials) < materials,
        material_id < materials ==> bound_material(material_id, materials) == material_id,
        material_id >= materials ==> bound_material(material_id, materials) == materials - 1,
{
}

/// The commands that draw the first `n` meshes are four per mesh, and those
/// of mesh `i` are its own four in order.
pub proof fn lemma_meshes_commands(meshes: Seq<MeshView>, materials: nat, n: nat)
    ensures
        meshes_commands(meshes, materials, n).len() == 4 * n,
        forall|i: int, j: int|
            0 <= i < n && 0 <= j < 4 ==> #[trigger] meshes_commands(meshes, materials, n)[4 * i
                + j] == mesh_commands(i, meshes[i], materials)[j],
    decreases n,
{
    if n > 0 {
        let m = (n - 1) as nat;
        lemma_meshes_commands(meshes, materials, m);
        let front = meshes_commands(meshes, materials, m);
        let all = meshes_commands(meshes, materials, n);
        assert(all == front + mesh_commands(n - 1, meshes[n - 1], materials));
        assert forall|i: int, j: int| 0 <= i < n && 0 <= j < 4 implies #[trigger] all[4 * i + j]
            == mesh_commands(i, meshes[i], materials)[j] by {
            if i < m {
                assert(all[4 * i + j] == front[4 * i + j]);
            } else {
                assert(all[4 * i + j] == mesh_commands(n - 1, meshes[n - 1], materials)[j]);
            }
        }
    }
}

/// A frame sets the pipeline, the camera and the model's transform once, and
/// then draws every mesh in order: mesh `i` binds a material the model has in
/// set 2, binds its own buffers, and issues one indexed draw of one instance
/// over its whole index range.
pub proof fn lemma_frame_commands(model: ModelView)
    requires
        model.wf(),
    ensures
        frame_commands(model).len() == 3 + 4 * model.meshes.len(),
        frame_commands(model)[0] == RenderCommand::SetPipeline,
        frame_commands(model)[1] == (RenderCommand::SetBindGroup {
            index: 0,
            group: BindGroupId::Camera,
        }),
        frame_commands(model)[2] == (RenderCommand::SetBindGroup {
            index: 1,
            group: BindGroupId::Model,
        }),
        forall|i: int|
            #![trigger model.meshes[i]]
            0 <= i < model.meshes.len() ==> {
                let material = bound_material(model.meshes[i].material_id, model.materials.len());
                &&& 0 <= material < model.materials.len()
                &&& frame_commands(model)[3 + 4 * i] == (RenderCommand::SetBindGroup {
                    index: 2,
                    group: BindGroupId::Material(material as usize),
                })
                &&& frame_commands(model)[3 + 4 * i + 1] == (RenderCommand::SetVertexBuffer {
                    slot: 0,
                    mesh: i as usize,
                })
                &&& frame_commands(model)[3 + 4 * i + 2] == (RenderCommand::SetIndexBuffer {
                    mesh: i as usize,
                    format: IndexFormat::Uint32,
                })
                &&& frame_commands(model)[3 + 4 * i + 3] == (RenderCommand::DrawIndexed {
                    first_index: 0,
                    end_index: model.meshes[i].index_count,
                    base_vertex: 0,
                    first_instance: 0,
                    end_instance: 1,
                })
            },
{
    let n = model.meshes.len();
    let k = model.materials.len();
    let body = meshes_commands(model.meshes, k, n);
    lemma_meshes_commands(model.meshes, k, n);
    assert forall|i: int| #![trigger model.meshes[i]] 0 <= i < n implies {
        let material = bound_material(model.meshes[i].material_id, k);
        &&& 0 <= material < k
        &&& frame_commands(model)[3 + 4 * i] == (RenderCommand::SetBindGroup {
            index: 2,
            group: BindGroupId::Material(material as usize),
        })
        &&& frame_commands(model)[3 + 4 * i + 1] == (RenderCommand::SetVertexBuffer {
            slot: 0,
            mesh: i as usize,
        })
        &&& frame_commands(model)[3 + 4 * i + 2] == (RenderCommand::SetIndexBuffer {
            mesh: i as usize,
            format: IndexFormat::Uint32,
        })
        &&& frame_commands(model)[3 + 4 * i + 3] == (RenderCommand::DrawIndexed {
            first_index: 0,
            end_index: model.meshes[i].index_count,
            base_vertex: 0,
            first_instance: 0,
            end_instance: 1,
        })
    } by {
        lemma_bound_material(model.meshes[i].material_id, k);
        let own = mesh_commands(i, model.meshes[i], k);
        assert(body[4 * i + 0] == own[0]);
        assert(body[4 * i + 1] == own[1]);
        assert(body[4 * i + 2] == own[2]);
        assert(body[4 * i + 3] == own[3]);
        assert(frame_commands(model)[3 + 4 * i] == body[4 * i + 0]);
        assert(frame_commands(model)[3 + 4 * i + 1] == body[4 * i + 1]);
        assert(frame_commands(model)[3 + 4 * i + 2] == body[4 * i + 2]);
        assert(frame_commands(model)[3 + 4 * i + 3] == body[4 * i + 3]);
    }
}

} // verus!
