//! The fixed pipeline states of the two renderables, and the commands that
//! draw them.
//!
//! The surface mesh is drawn twice over the same geometry, with two pipelines
//! that cull opposite faces and never write depth: first the pipeline that
//! culls back faces, then the one that culls front faces. The reference quad
//! is a strip of four vertices, drawn once, and it writes depth. This module
//! states those choices as plain data; the host turns them into calls of its
//! graphics backend.

use vstd::prelude::*;

verus! {

/// The bind group index of the camera's matrices.
pub const CAMERA_GROUP: u32 = 0;

/// The bind group index of a renderable's own transform.
pub const TRANSFORM_GROUP: u32 = 1;

/// The number of vertices of the reference quad.
pub const QUAD_VERTICES: u32 = 4;

/// A side of a triangle.
#[derive(Debug, Clone, Copy, PartialEq, Eq, Structural)]
pub enum Face {
    Front,
    Back,
}

/// How the vertices of a draw call form triangles.
#[derive(Debug, Clone, Copy, PartialEq, Eq, Structural)]
pub enum Topology {
    TriangleList,
    TriangleStrip,
}

/// A weight of the source or the destination in a blend sum.
#[derive(Debug, Clone, Copy, PartialEq, Eq, Structural)]
pub enum BlendFactor {
    Zero,
    One,
    OneMinusSrcAlpha,
}

/// A blend sum: `source * src_factor + destination * dst_factor`.
#[derive(Debug, Clone, Copy, PartialEq, Eq, Structural)]
pub struct BlendComponent {
    pub src_factor: BlendFactor,
    pub dst_factor: BlendFactor,
}

/// The blend sums of the colour channels and of the alpha channel.
#[derive(Debug, Clone, Copy, PartialEq, Eq, Structural)]
pub struct BlendState {
    pub color: BlendComponent,
    pub alpha: BlendComponent,
}

/// When a fragment passes the depth test.
#[derive(Debug, Clone, Copy, PartialEq, Eq, Structural)]
pub enum DepthCompare {
    /// Where it is nearer than what the depth buffer holds.
    Less,
    /// Everywhere: the depth buffer is not consulted.
    Always,
}

/// The state that a pipeline is created with, as far as the pipelines of this
/// renderer differ from the defaults of the graphics backend.
#[derive(Debug, Clone, Copy, PartialEq, Eq, Structural)]
pub struct PipelineState {
    pub topology: Topology,
    /// The faces that are not drawn, if any.
    pub cull_mode: Option<Face>,
    pub depth_compare: DepthCompare,
    pub depth_write_enabled: bool,
    pub blend: BlendState,
    /// Whether the vertex stage reads a vertex buffer.
    pub reads_vertex_buffer: bool,
}

/// One of the three pipelines of the renderer.
#[derive(Debug, Clone, Copy, PartialEq, Eq, Structural)]
pub enum Pipeline {
    /// The mesh pipeline that culls back faces.
    MeshCullBack,
    /// The mesh pipeline that culls front faces.
    MeshCullFront,
    /// The pipeline of the reference quad.
    Quad,
}

/// One of the two renderables.
#[derive(Debug, Clone, Copy, PartialEq, Eq, Structural)]
pub enum Renderable {
    Quad,
    Mesh,
}

/// A command recorded into a render pass.
#[derive(Debug, Clone, Copy, PartialEq, Eq, Structural)]
pub enum RenderCommand {
    /// Bind the camera's matrices at [`CAMERA_GROUP`].
    BindCamera,
    /// Bind the transform of a renderable at [`TRANSFORM_GROUP`].
    BindTransform(Renderable),
    /// Bind the vertex buffer of the mesh at slot 0 and its buffer of 16-bit
    /// indices.
    BindMeshBuffers,
    SetPipeline(Pipeline),
    /// Draw one instance of the first `index_count` entries of the index
    /// buffer.
    DrawIndexed { index_count: u32 },
    /// Draw one instance of `vertex_count` vertices without a vertex buffer.
    Draw { vertex_count: u32 },
}

/// The blending of the mesh: colours add up, and the alpha of what is already
/// there is scaled by the transparency of the source.
pub open spec fn additive_blend() -> BlendState {
    BlendState {
        color: BlendComponent { src_factor: BlendFactor::One, dst_factor: BlendFactor::One },
        alpha: BlendComponent {
            src_factor: BlendFactor::Zero,
            dst_factor: BlendFactor::OneMinusSrcAlpha,
        },
    }
}

/// Blending of a source with premultiplied alpha over the destination.
pub open spec fn premultiplied_alpha_blend() -> BlendState {
    BlendState {
        color: BlendComponent {
            src_factor: BlendFactor::One,
            dst_factor: BlendFactor::OneMinusSrcAlpha,
        },
        alpha: BlendComponent {
            src_factor: BlendFactor::One,
            dst_factor: BlendFactor::OneMinusSrcAlpha,
        },
    }
}

/// The state of each pipeline.
pub open spec fn state_of(pipeline: Pipeline) -> PipelineState {
    match pipeline {
        Pipeline::MeshCullBack => PipelineState {
            topology: Topology::TriangleList,
            cull_mode: Some(Face::Back),
            depth_compare: DepthCompare::Less,
            depth_write_enabled: false,
            blend: additive_blend(),
            reads_vertex_buffer: true,
        },
        Pipeline::MeshCullFront => PipelineState {
            topology: Topology::TriangleList,
            cull_mode: Some(Face::Front),
            depth_compare: DepthCompare::Less,
            depth_write_enabled: false,
            blend: additive_blend(),
            reads_vertex_buffer: true,
        },
        Pipeline::Quad => PipelineState {
            topology: Topology::TriangleStrip,
            cull_mode: None,
            depth_compare: DepthCompare::Less,
            depth_write_enabled: true,
            blend: premultiplied_alpha_blend(),
            reads_vertex_buffer: false,
        },
    }
}

/// The commands that draw the mesh.
pub open spec fn mesh_commands(index_count: u32) -> Seq<RenderCommand> {
    seq![
        RenderCommand::BindCamera,
        RenderCommand::BindTransform(Renderable::Mesh),
        RenderCommand::BindMeshBuffers,
        RenderCommand::SetPipeline(Pipeline::MeshCullBack),
        RenderCommand::DrawIndexed { index_count },
        RenderCommand::SetPipeline(Pipeline::MeshCullFront),
        RenderCommand::DrawIndexed { index_count },
    ]
}

/// The commands that draw the reference quad.
pub open spec fn quad_commands() -> Seq<RenderCommand> {
    seq![
        RenderCommand::BindCamera,
        RenderCommand::BindTransform(Renderable::Quad),
        RenderCommand::SetPipeline(Pipeline::Quad),
        RenderCommand::Draw { vertex_count: QUAD_VERTICES },
    ]
}

/// The commands of one frame: the quad, where it is shown, then the mesh.
pub open spec fn frame_commands(show_quad: bool, index_count: u32) -> Seq<RenderCommand> {
    if show_quad {
        quad_commands() + mesh_commands(index_count)
    } else {
        mesh_commands(index_count)
    }
}

impl Pipeline {
    /// The state that the pipeline is created with.
    pub fn state(self) -> (state: PipelineState)
        ensures
            state == state_of(self),
    {
        let additive = BlendState {
            color: BlendComponent { src_factor: BlendFactor::One, dst_factor: BlendFactor::One },
            alpha: BlendComponent {
                src_factor: BlendFactor::Zero,
                dst_factor: BlendFactor::OneMinusSrcAlpha,
            },
        };
        let over = BlendComponent {
            src_factor: BlendFactor::One,
            dst_factor: BlendFactor::OneMinusSrcAlpha,
        };
        match self {
            Pipeline::MeshCullBack => PipelineState {
                topology: Topology::TriangleList,
                cull_mode: Some(Face::Back),
                depth_compare: DepthCompare::Less,
            depth_write_enabled: false,
                blend: additive,
                reads_vertex_buffer: true,
            },
            Pipeline::MeshCullFront => PipelineState {
                topology: Topology::TriangleList,
                cull_mode: Some(Face::Front),
                depth_compare: DepthCompare::Less,
            depth_write_enabled: false,
                blend: additive,
                reads_vertex_buffer: true,
            },
            Pipeline::Quad => PipelineState {
                topology: Topology::TriangleStrip,
                cull_mode: None,
                depth_compare: DepthCompare::Less,
            depth_write_enabled: true,
                blend: BlendState { color: over, alpha: over },
                reads_vertex_buffer: false,
            },
        }
    }
}

/// Appends the commands that draw the mesh.
pub fn record_mesh(commands: &mut Vec<RenderCommand>, index_count: u32)
    ensures
        final(commands)@ == old(commands)@ + mesh_commands(index_count),
{
    commands.push(RenderCommand::BindCamera);
    commands.push(RenderCommand::BindTransform(Renderable::Mesh));
    commands.push(RenderCommand::BindMeshBuffers);
    commands.push(RenderCommand::SetPipeline(Pipeline::MeshCullBack));
    commands.push(RenderCommand::DrawIndexed { index_count });
    commands.push(RenderCommand::SetPipeline(Pipeline::MeshCullFront));
    commands.push(RenderCommand::DrawIndexed { index_count });
    assert(commands@ =~= old(commands)@ + mesh_commands(index_count));
}

/// Appends the commands that draw the reference quad.
pub fn record_quad(commands: &mut Vec<RenderCommand>)
    ensures
        final(commands)@ == old(commands)@ + quad_commands(),
{
    commands.push(RenderCommand::BindCamera);
    commands.push(RenderCommand::BindTransform(Renderable::Quad));
    commands.push(RenderCommand::SetPipeline(Pipeline::Quad));
    commands.push(RenderCommand::Draw { vertex_count: QUAD_VERTICES });
    assert(commands@ =~= old(commands)@ + quad_commands());
}

/// The commands of one frame, in the order in which they are recorded.
pub fn record_frame(show_quad: bool, index_count: u32) -> (commands: Vec<RenderCommand>)
    ensures
        commands@ == frame_commands(show_quad, index_count),
{
    let mut commands: Vec<RenderCommand> = Vec::new();
    if show_quad {
        record_quad(&mut commands);
    }
    record_mesh(&mut commands, index_count);
    assert(commands@ =~= frame_commands(show_quad, index_count));
    commands
}

/// The two mesh pipelines differ in the faces that they cull and in nothing
/// else: both test depth, and neither writes it.
pub proof fn lemma_mesh_pipelines_differ_in_culling_alone()
    ensures
        state_of(Pipeline::MeshCullBack).cull_mode == Some(Face::Back),
        state_of(Pipeline::MeshCullFront).cull_mode == Some(Face::Front),
        state_of(Pipeline::MeshCullFront) == (PipelineState {
            cull_mode: Some(Face::Front),
            ..state_of(Pipeline::MeshCullBack)
        }),
        state_of(Pipeline::MeshCullBack).depth_compare == DepthCompare::Less,
        !state_of(Pipeline::MeshCullBack).depth_write_enabled,
        !state_of(Pipeline::MeshCullFront).depth_write_enabled,
{
}

/// In every frame the mesh is drawn after the quad, and with both of its
/// pipelines over the same index range: first the one that culls back faces,
/// then the one that culls front faces.
pub proof fn lemma_frame_draws_mesh_twice(show_quad: bool, index_count: u32)
    ensures
        ({
            let frame = frame_commands(show_quad, index_count);
            let n = frame.len() as int;
            &&& n == if show_quad { 11int } else { 7int }
            &&& frame[n - 4] == RenderCommand::SetPipeline(Pipeline::MeshCullBack)
            &&& frame[n - 3] == (RenderCommand::DrawIndexed { index_count })
            &&& frame[n - 2] == RenderCommand::SetPipeline(Pipeline::MeshCullFront)
            &&& frame[n - 1] == (RenderCommand::DrawIndexed { index_count })
            &&& show_quad ==> frame[3] == (RenderCommand::Draw { vertex_count: QUAD_VERTICES })
        }),
{
}

} // verus!
