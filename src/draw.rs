//! The commands that draw one queued entity: its mesh and its instance
//! buffer bound side by side, and one instanced draw.
use vstd::prelude::*;

verus! {

/// The mesh's vertex buffer binds here.
pub const MESH_VERTEX_SLOT: u32 = 0;

/// The entity's instance buffer binds here, right after the mesh.
pub const INSTANCE_SLOT: u32 = 1;

/// How a GPU-resident mesh is drawn.
#[derive(Clone, Copy, Debug, PartialEq, Eq, Structural)]
pub enum GpuBufferInfo {
    /// Drawn through its index buffer, which holds `count` indices.
    Indexed { count: u32 },
    /// Drawn straight from its `vertex_count` vertices.
    NonIndexed { vertex_count: u32 },
}

/// One command recorded into a render pass.
#[derive(Clone, Copy, Debug, PartialEq, Eq, Structural)]
pub enum PassCommand {
    /// Bind the whole vertex buffer of the mesh at `slot`.
    SetMeshVertexBuffer { slot: u32 },
    /// Bind the whole instance buffer of the entity at `slot`.
    SetInstanceBuffer { slot: u32 },
    /// Bind the mesh's index buffer from its start.
    SetMeshIndexBuffer,
    /// Draw indices `0..index_count` for instances `0..instance_count`.
    DrawIndexed { index_count: u32, instance_count: u32 },
    /// Draw vertices `0..vertex_count` for instances `0..instance_count`.
    Draw { vertex_count: u32, instance_count: u32 },
}

/// Why one queued draw could not be recorded.
#[derive(Clone, Copy, Debug, PartialEq, Eq, Structural)]
pub enum DrawError {
    /// The mesh is not resident on the GPU (evicted, or not uploaded yet).
    MissingMeshRecord,
}

pub open spec fn spec_draw_commands(info: GpuBufferInfo, instance_count: u32) -> Seq<PassCommand> {
    match info {
        GpuBufferInfo::Indexed { count } => seq![
            PassCommand::SetMeshVertexBuffer { slot: MESH_VERTEX_SLOT },
            PassCommand::SetInstanceBuffer { slot: INSTANCE_SLOT },
            PassCommand::SetMeshIndexBuffer,
            PassCommand::DrawIndexed { index_count: count, instance_count },
        ],
        GpuBufferInfo::NonIndexed { vertex_count } => seq![
            PassCommand::SetMeshVertexBuffer { slot: MESH_VERTEX_SLOT },
            PassCommand::SetInstanceBuffer { slot: INSTANCE_SLOT },
            PassCommand::Draw { vertex_count, instance_count },
        ],
    }
}

/// Records instanced draws of a mesh, one instance per record of the
/// entity's instance buffer.
pub struct DrawMeshInstanced;

impl DrawMeshInstanced {
    /// The commands that draw `instance_length` instances of `mesh`, or an
    /// error for this draw alone when the mesh is not resident.
    pub fn render(mesh: Option<GpuBufferInfo>, instance_length: usize) -> (r: Result<
        Vec<PassCommand>,
        DrawError,
    >)
        requires
            instance_length <= u32::MAX,
        ensures
            mesh is None <==> r == Err::<Vec<PassCommand>, DrawError>(DrawError::MissingMeshRecord),
            mesh is Some ==> r is Ok && r->Ok_0@ == spec_draw_commands(mesh->0, instance_length as u32),
    {
        let info = match mesh {
            Some(info) => info,
            None => return Err(DrawError::MissingMeshRecord),
        };
        let instance_count = instance_length as u32;
        let mut commands: Vec<PassCommand> = Vec::new();
        commands.push(PassCommand::SetMeshVertexBuffer { slot: MESH_VERTEX_SLOT });
        commands.push(PassCommand::SetInstanceBuffer { slot: INSTANCE_SLOT });
        match info {
            GpuBufferInfo::Indexed { count } => {
                commands.push(PassCommand::SetMeshIndexBuffer);
                commands.push(PassCommand::DrawIndexed { index_count: count, instance_count });
            },
            GpuBufferInfo::NonIndexed { vertex_count } => {
                commands.push(PassCommand::Draw { vertex_count, instance_count });
            },
        }
        assert(commands@ =~= spec_draw_commands(info, instance_count));
        Ok(commands)
    }
}

/// The number of instances a command draws; binding commands draw none.
pub open spec fn instances_drawn(c: PassCommand) -> nat {
    match c {
        PassCommand::DrawIndexed { instance_count, .. } => instance_count as nat,
        PassCommand::Draw { instance_count, .. } => instance_count as nat,
        _ => 0,
    }
}

/// Exactly one command draws, and it draws one instance per record; so an
/// empty instance buffer records no instance at all.
pub proof fn lemma_one_draw_per_record(info: GpuBufferInfo, instance_count: u32)
    ensures
        ({
            let cs = spec_draw_commands(info, instance_count);
            &&& instances_drawn(cs.last()) == instance_count
            &&& forall|i: int| 0 <= i < cs.len() - 1 ==> !(#[trigger] cs[i] is Draw) && !(cs[i] is DrawIndexed)
            &&& instance_count == 0 ==> forall|i: int| 0 <= i < cs.len() ==> instances_drawn(#[trigger] cs[i]) == 0
        }),
{
}

} // verus!
