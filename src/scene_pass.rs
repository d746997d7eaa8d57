use vstd::prelude::*;

verus! {

/// The bind group set at a slot of the scene pipeline.
#[derive(Clone, Copy, Debug, PartialEq, Eq, Structural)]
pub enum BindGroupRef {
    /// The view-projection group, slot 0, once per pass.
    Camera,
    /// The model's world transform group, slot 1, once per pass.
    ModelTransform,
    /// The material group of the given index, slot 2, once per mesh.
    Material(usize),
}

/// One command recorded into the scene pass.
#[derive(Clone, Copy, Debug, PartialEq, Eq, Structural)]
pub enum PassCommand {
    SetPipeline,
    SetBindGroup { slot: u32, group: BindGroupRef },
    SetVertexBuffer { mesh: usize },
    SetIndexBuffer { mesh: usize },
    DrawIndexed { index_count: u32, instance_count: u32 },
}

/// What the scene pass needs to know of a mesh: its material reference and
/// how many indices it draws.
#[derive(Clone, Copy, Debug, PartialEq, Eq, Structural)]
pub struct MeshDraw {
    pub material_id: usize,
    pub index_count: u32,
}

pub const CAMERA_SLOT: u32 = 0;

pub const MODEL_SLOT: u32 = 1;

pub const MATERIAL_SLOT: u32 = 2;

/// The material a mesh is drawn with: its own index when in range, else the
/// last material.
pub open spec fn spec_material_slot(material_id: usize, material_count: usize) -> usize {
    if material_id < material_count {
        material_id
    } else {
        (material_count - 1) as usize
    }
}

/// Commands set once per pass, before any draw: coarse bindings first.
pub open spec fn pass_header() -> Seq<PassCommand> {
    seq![
        PassCommand::SetPipeline,
        PassCommand::SetBindGroup { slot: CAMERA_SLOT, group: BindGroupRef::Camera },
        PassCommand::SetBindGroup { slot: MODEL_SLOT, group: BindGroupRef::ModelTransform },
    ]
}

/// The four commands that draw mesh `index`: bind its material, its vertex
/// and index buffers, and draw all its indices as one instance.
pub open spec fn mesh_commands(mesh: MeshDraw, index: usize, material_count: usize) -> Seq<
    PassCommand,
> {
    seq![
        PassCommand::SetBindGroup {
            slot: MATERIAL_SLOT,
            group: BindGroupRef::Material(spec_material_slot(mesh.material_id, material_count)),
        },
        PassCommand::SetVertexBuffer { mesh: index },
        PassCommand::SetIndexBuffer { mesh: index },
        PassCommand::DrawIndexed { index_count: mesh.index_count, instance_count: 1 },
    ]
}

/// The per-mesh commands of all meshes, in mesh order.
pub open spec fn mesh_draws(meshes: Seq<MeshDraw>, material_count: usize) -> Seq<PassCommand>
    decreases meshes.len(),
{
    if meshes.len() == 0 {
        seq![]
    } else {
        mesh_draws(meshes.drop_last(), material_count) + mesh_commands(
            meshes.last(),
            (meshes.len() - 1) as usize,
            material_count,
        )
    }
}

/// The whole scene pass.
pub open spec fn spec_scene_pass(meshes: Seq<MeshDraw>, material_count: usize) -> Seq<PassCommand> {
    pass_header() + mesh_draws(meshes, material_count)
}

/// Picks the material for a mesh, clamping an out-of-range reference to the
/// last material instead of failing.
pub fn material_slot(material_id: usize, material_count: usize) -> (r: usize)
    requires
        material_count > 0,
    ensures
        r == spec_material_slot(material_id, material_count),
        r < material_count,
        material_id >= material_count ==> r == material_count - 1,
{
    if material_id < material_count {
        material_id
    } else {
        material_count - 1
    }
}

/// The commands of one forward scene pass over `meshes`, `material_count`
/// materials being loaded. Meshes need at least one material to draw with.
pub fn scene_pass(meshes: &Vec<MeshDraw>, material_count: usize) -> (r: Vec<PassCommand>)
    requires
        meshes.len() > 0 ==> material_count > 0,
    ensures
        r@ == spec_scene_pass(meshes@, material_count),
{
    let mut out: Vec<PassCommand> = Vec::new();
    out.push(PassCommand::SetPipeline);
    out.push(PassCommand::SetBindGroup { slot: CAMERA_SLOT, group: BindGroupRef::Camera });
    out.push(
        PassCommand::SetBindGroup { slot: MODEL_SLOT, group: BindGroupRef::ModelTransform },
    );
    proof {
        assert(meshes@.take(0) =~= seq![]);
        assert(out@ =~= spec_scene_pass(meshes@.take(0), material_count));
    }
    let mut i: usize = 0;
    while i < meshes.len()
        invariant
            meshes.len() > 0 ==> material_count > 0,
            i <= meshes.len(),
            out@ == spec_scene_pass(meshes@.take(i as int), material_count),
        decreases meshes.len() - i,
    {
        let mesh = meshes[i];
        let slot = material_slot(mesh.material_id, material_count);
        out.push(
            PassCommand::SetBindGroup { slot: MATERIAL_SLOT, group: BindGroupRef::Material(slot) },
        );
        out.push(PassCommand::SetVertexBuffer { mesh: i });
        out.push(PassCommand::SetIndexBuffer { mesh: i });
        out.push(PassCommand::DrawIndexed { index_count: mesh.index_count, instance_count: 1 });
        proof {
            let next = meshes@.take(i + 1);
            assert(next.drop_last() =~= meshes@.take(i as int));
            assert(next.last() == mesh);
            assert(out@ =~= spec_scene_pass(next, material_count));
        }
        i = i + 1;
    }
    proof {
        assert(meshes@.take(meshes.len() as int) =~= meshes@);
    }
    out
}

/// The scene pass binds the camera and model groups once, then for mesh `i`
/// binds at slot 2 the material it references, clamped to the last material,
/// and draws all its indices once: four commands per mesh, in mesh order.
pub proof fn lemma_scene_pass_layout(meshes: Seq<MeshDraw>, material_count: usize, i: int)
    requires
        material_count > 0,
        0 <= i < meshes.len(),
    ensures
        spec_scene_pass(meshes, material_count).len() == 3 + 4 * meshes.len(),
        spec_scene_pass(meshes, material_count).subrange(0, 3) == pass_header(),
        spec_scene_pass(meshes, material_count)[3 + 4 * i] == (PassCommand::SetBindGroup {
            slot: MATERIAL_SLOT,
            group: BindGroupRef::Material(spec_material_slot(meshes[i].material_id, material_count)),
        }),
        spec_scene_pass(meshes, material_count)[3 + 4 * i + 3] == (PassCommand::DrawIndexed {
            index_count: meshes[i].index_count,
            instance_count: 1,
        }),
        spec_material_slot(meshes[i].material_id, material_count) < material_count,
{
    lemma_mesh_draws_layout(meshes, material_count, i);
    assert(spec_scene_pass(meshes, material_count).subrange(0, 3) =~= pass_header());
}

proof fn lemma_mesh_draws_layout(meshes: Seq<MeshDraw>, material_count: usize, i: int)
    requires
        0 <= i < meshes.len(),
    ensures
        mesh_draws(meshes, material_count).len() == 4 * meshes.len(),
        mesh_draws(meshes, material_count).subrange(4 * i, 4 * i + 4) == mesh_commands(
            meshes[i],
            i as usize,
            material_count,
        ),
    decreases meshes.len(),
{
    let prefix = meshes.drop_last();
    let n = meshes.len() - 1;
    if i < n {
        lemma_mesh_draws_layout(prefix, material_count, i);
        assert(mesh_draws(meshes, material_count).subrange(4 * i, 4 * i + 4) =~= mesh_draws(
            prefix,
            material_count,
        ).subrange(4 * i, 4 * i + 4));
    } else {
        lemma_mesh_draws_len(prefix, material_count);
        assert(mesh_draws(meshes, material_count).subrange(4 * i, 4 * i + 4) =~= mesh_commands(
            meshes[i],
            i as usize,
            material_count,
        ));
    }
}

proof fn lemma_mesh_draws_len(meshes: Seq<MeshDraw>, material_count: usize)
    ensures
        mesh_draws(meshes, material_count).len() == 4 * meshes.len(),
    decreases meshes.len(),
{
    if meshes.len() > 0 {
        lemma_mesh_draws_len(meshes.drop_last(), material_count);
    }
}

} // verus!
