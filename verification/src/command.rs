//! The commands a draw issues on an open render pass.

use vstd::prelude::*;

verus! {

/// Width of the entries of an index buffer.
#[derive(Clone, Copy, Debug, PartialEq, Eq)]
pub enum IndexFormat {
    Uint16,
    Uint32,
}

/// Where a bound uniform group comes from.
#[derive(Clone, Copy, Debug, PartialEq, Eq)]
pub enum BindGroupSource {
    /// The group of the object's material with this index.
    Material(usize),
    /// The group of the camera that the render pass was opened with.
    Camera,
}

/// Where a bound vertex buffer comes from.
#[derive(Clone, Copy, Debug, PartialEq, Eq)]
pub enum VertexBufferSource {
    /// The vertex buffer of the object's mesh with this index.
    Mesh(usize),
    /// The object's instance buffer.
    Instances,
}

/// One command on a render pass. Ranges are half open: they start at
/// `first_*` and stop before `end_*`.
#[derive(Clone, Copy, Debug, PartialEq, Eq)]
pub enum RenderCommand {
    SetPipeline { pipeline: usize },
    SetBindGroup { slot: u32, group: BindGroupSource },
    SetVertexBuffer { slot: u32, buffer: VertexBufferSource },
    SetIndexBuffer { mesh: usize, format: IndexFormat },
    DrawIndexed {
        first_index: u32,
        end_index: u32,
        base_vertex: i32,
        first_instance: u32,
        end_instance: u32,
    },
}

/// The commands that draw `instances` instances of sub-mesh `mesh`, which
/// has `size` indices, with the material and the pipeline of index `paired`:
/// the pipeline, the material's uniforms in slot 0 and the camera's in slot
/// 1, the mesh's vertices in slot 0 and the instance matrices in slot 1, the
/// mesh's 32-bit indices, and one indexed, instanced draw over all indices
/// and all instances.
pub open spec fn draw_group(mesh: usize, paired: usize, size: u32, instances: u32) -> Seq<
    RenderCommand,
> {
    seq![
        RenderCommand::SetPipeline { pipeline: paired },
        RenderCommand::SetBindGroup { slot: 0, group: BindGroupSource::Material(paired) },
        RenderCommand::SetBindGroup { slot: 1, group: BindGroupSource::Camera },
        RenderCommand::SetVertexBuffer { slot: 0, buffer: VertexBufferSource::Mesh(mesh) },
        RenderCommand::SetVertexBuffer { slot: 1, buffer: VertexBufferSource::Instances },
        RenderCommand::SetIndexBuffer { mesh, format: IndexFormat::Uint32 },
        RenderCommand::DrawIndexed {
            first_index: 0,
            end_index: size,
            base_vertex: 0,
            first_instance: 0,
            end_instance: instances,
        },
    ]
}

/// Appends the commands of one draw to `commands`.
pub fn push_draw_group(
    commands: &mut Vec<RenderCommand>,
    mesh: usize,
    paired: usize,
    size: u32,
    instances: u32,
)
    ensures
        final(commands)@ == old(commands)@ + draw_group(mesh, paired, size, instances),
{
    commands.push(RenderCommand::SetPipeline { pipeline: paired });
    commands.push(
        RenderCommand::SetBindGroup { slot: 0, group: BindGroupSource::Material(paired) },
    );
    commands.push(RenderCommand::SetBindGroup { slot: 1, group: BindGroupSource::Camera });
    commands.push(
        RenderCommand::SetVertexBuffer { slot: 0, buffer: VertexBufferSource::Mesh(mesh) },
    );
    commands.push(
        RenderCommand::SetVertexBuffer { slot: 1, buffer: VertexBufferSource::Instances },
    );
    commands.push(RenderCommand::SetIndexBuffer { mesh, format: IndexFormat::Uint32 });
    commands.push(
        RenderCommand::DrawIndexed {
            first_index: 0,
            end_index: size,
            base_vertex: 0,
            first_instance: 0,
            end_instance: instances,
        },
    );
    assert(commands@ =~= old(commands)@ + draw_group(mesh, paired, size, instances));
}

} // verus!
