//! Render pipelines.

use vstd::prelude::*;
use crate::resources::{Device, PipelineLayout, ResourceKind, ShaderModule};
use crate::vertex::VertexBufferLayout;

verus! {

/// The texture formats of `wgpu`. The simulation never looks inside one: it
/// takes the format of the surface and hands it to its render pipelines.
#[verifier::external_type_specification]
#[verifier::external_body]
pub struct ExTextureFormat(wgpu::TextureFormat);

/// What the simulation reads of the surface it renders to.
pub struct SurfaceConfiguration {
    pub format: wgpu::TextureFormat,
    pub width: u32,
    pub height: u32,
}

/// The colour channels that a pipeline writes.
#[derive(Clone, Copy, Debug, PartialEq, Eq, Structural)]
pub struct ColorWrites {
    pub red: bool,
    pub green: bool,
    pub blue: bool,
    pub alpha: bool,
}

/// The colour target of a render pipeline.
pub struct ColorTargetState {
    pub format: wgpu::TextureFormat,
    /// Whether the output is blended with what the target holds.
    pub blend: bool,
    pub write_mask: ColorWrites,
}

/// How vertices are assembled into primitives.
#[derive(Clone, Copy, Debug, PartialEq, Eq, Structural)]
pub enum PrimitiveTopology {
    PointList,
    LineList,
    LineStrip,
    TriangleList,
    TriangleStrip,
}

/// The winding that makes a triangle front-facing.
#[derive(Clone, Copy, Debug, PartialEq, Eq, Structural)]
pub enum FrontFace {
    Ccw,
    Cw,
}

/// The face that is culled.
#[derive(Clone, Copy, Debug, PartialEq, Eq, Structural)]
pub enum CullMode {
    NoCulling,
    Front,
    Back,
}

/// Primitive assembly and rasterisation of a render pipeline.
#[derive(Clone, Copy, Debug, PartialEq, Eq, Structural)]
pub struct PrimitiveState {
    pub topology: PrimitiveTopology,
    pub front_face: FrontFace,
    pub cull_mode: CullMode,
}

/// Multisampling of a render pipeline.
#[derive(Clone, Copy, Debug, PartialEq, Eq, Structural)]
pub struct MultisampleState {
    pub count: u32,
    pub mask: u64,
    pub alpha_to_coverage_enabled: bool,
}

/// The primitive state of every render pipeline of the simulation: lists of
/// triangles, counter-clockwise front faces, nothing culled.
pub open spec fn triangle_list() -> PrimitiveState {
    PrimitiveState {
        topology: PrimitiveTopology::TriangleList,
        front_face: FrontFace::Ccw,
        cull_mode: CullMode::NoCulling,
    }
}

/// The multisample state of every render pipeline of the simulation: one
/// sample per pixel, every sample enabled.
pub open spec fn single_sample() -> MultisampleState {
    MultisampleState { count: 1, mask: u64::MAX, alpha_to_coverage_enabled: false }
}

/// Every channel written.
pub open spec fn all_channels() -> ColorWrites {
    ColorWrites { red: true, green: true, blue: true, alpha: true }
}

/// A render pipeline.
pub struct RenderPipeline {
    pub id: usize,
    /// Identity of the pipeline layout.
    pub layout: usize,
    /// Identity of the shader module, which holds both entry points.
    pub module: usize,
    pub vertex_entry: String,
    pub fragment_entry: String,
    pub buffers: Vec<VertexBufferLayout>,
    pub target: ColorTargetState,
    pub primitive: PrimitiveState,
    pub multisample: MultisampleState,
}

/// Creates a render pipeline that runs the entry points `main_vs` and
/// `main_fs` of `shader` with the groups of `layout`, reads its vertices as
/// `buffers` say, and writes every channel, unblended, to one target of the
/// surface's format. It draws lists of triangles without culling, depth or
/// multisampling.
pub fn make_render_pipeline(
    device: &mut Device,
    config: &SurfaceConfiguration,
    layout: &PipelineLayout,
    shader: &ShaderModule,
    buffers: Vec<VertexBufferLayout>,
) -> (pipeline: RenderPipeline)
    ensures
        final(device)@ == old(device)@.push(ResourceKind::RenderPipeline),
        pipeline.id == old(device)@.len(),
        pipeline.layout == layout.id,
        pipeline.module == shader.id,
        pipeline.vertex_entry@ == "main_vs"@,
        pipeline.fragment_entry@ == "main_fs"@,
        pipeline.buffers == buffers,
        pipeline.target.format == config.format,
        !pipeline.target.blend,
        pipeline.target.write_mask == all_channels(),
        pipeline.primitive == triangle_list(),
        pipeline.multisample == single_sample(),
{
    let id = device.register(ResourceKind::RenderPipeline);
    RenderPipeline {
        id,
        layout: layout.id,
        module: shader.id,
        vertex_entry: "main_vs".to_owned(),
        fragment_entry: "main_fs".to_owned(),
        buffers,
        target: ColorTargetState {
            format: config.format,
            blend: false,
            write_mask: ColorWrites { red: true, green: true, blue: true, alpha: true },
        },
        primitive: PrimitiveState {
            topology: PrimitiveTopology::TriangleList,
            front_face: FrontFace::Ccw,
            cull_mode: CullMode::NoCulling,
        },
        multisample: MultisampleState { count: 1, mask: u64::MAX, alpha_to_coverage_enabled: false },
    }
}

} // verus!
