//! The frame orchestrator: everything the simulation creates at startup, and
//! the passes it submits each frame.

use vstd::prelude::*;
use crate::builders::{
    holds_words, layout_entries, lemma_sized_buffers_bind, make_bind_group, make_binding_layout, make_buffer,
    make_compute_pipeline, make_pipeline_layout, make_shader,
};
use crate::dispatch::{cells_of, workgroup_count, workgroups_for};
use crate::error::ConfigError;
use crate::field::{FieldStore, CELL_BYTES};
use crate::frame::{plan_view, ComputePass, ComputePassView, Pass, PassKind, PassView, RenderPass};
use crate::geometry::{
    square, square_words, triangle, triangle_words, SQUARE_VERTICES, TRIANGLE_VERTICES,
    VERTEX_STRIDE,
};
use crate::params::ParameterBlock;
use crate::particles::{flatten, ParticleRecord, ParticleStore, RECORD_BYTES};
use crate::render::{
    all_channels, make_render_pipeline, single_sample, triangle_list, RenderPipeline,
    SurfaceConfiguration,
};
use crate::resources::{
    simulation_usages, BindGroup, BindGroupEntry, BindGroupLayout, Buffer, BufferBindingType,
    ComputePipeline, Device, PipelineLayout, ResourceKind, ShaderModule, ShaderStage,
};
use crate::vertex::{
    packed_attributes, vertex_buffer_layout, VertexBufferLayout, VertexFormat, VertexStepMode,
};

verus! {

/// Bytes of the parameter block.
pub const PARAMETER_BYTES: u32 = 48;

/// Number of resources that startup creates.
pub const STARTUP_RESOURCES: usize = 31;

/// The source texts of the five shaders.
pub struct ShaderSources {
    pub compute_particles: String,
    pub compute_map: String,
    pub render_particles: String,
    pub render_map: String,
    pub render_indicators: String,
}

/// What may differ from run to run without a change of any size: how many
/// times the two compute stages run in a frame, and which of the two
/// optional render passes are drawn. The map is always drawn.
#[derive(Clone, Copy, Debug, PartialEq, Eq, Structural)]
pub struct Settings {
    pub iterations: u32,
    pub render_particles: bool,
    pub render_indicators: bool,
}

/// Where the orchestrator stands between two frames or within one.
#[derive(Clone, Copy, Debug, PartialEq, Eq, Structural)]
pub enum Phase {
    Idle,
    FrameInProgress,
}

/// Everything that startup creates. Nothing here changes afterwards.
pub struct Resources {
    pub compute_particles_shader: ShaderModule,
    pub compute_map_shader: ShaderModule,
    pub render_particle_shader: ShaderModule,
    pub render_map_shader: ShaderModule,
    pub render_indicator_shader: ShaderModule,
    pub constant_data_buffer: Buffer,
    pub triangle_vertex_buffer: Buffer,
    pub square_vertex_buffer: Buffer,
    pub binding_constants_compute: BindGroupLayout,
    pub binding_constants_vertex: BindGroupLayout,
    pub binding_particles_compute: BindGroupLayout,
    pub binding_map_compute: BindGroupLayout,
    pub binding_map_vertex: BindGroupLayout,
    pub pipeline_layout_compute: PipelineLayout,
    pub pipeline_layout_compute_map: PipelineLayout,
    pub pipeline_layout_render_map: PipelineLayout,
    pub pipeline_layout_render_indicators: PipelineLayout,
    pub pipeline_layout_render_particles: PipelineLayout,
    pub compute_pipeline: ComputePipeline,
    pub compute_map_pipeline: ComputePipeline,
    pub pipeline_render_particles: RenderPipeline,
    pub pipeline_render_map: RenderPipeline,
    pub pipeline_render_indicators: RenderPipeline,
    pub raw_particle_buffer: Buffer,
    pub particle_bind_group: BindGroup,
    pub raw_map_buffer: Buffer,
    pub map_bind_group: BindGroup,
    pub raw_indicator_buffer: Buffer,
    pub indicator_bind_group_compute: BindGroup,
    pub const_bind_compute_group: BindGroup,
    pub const_bind_vertex_group: BindGroup,
}

/// Storage that shaders may write.
pub open spec fn read_write() -> BufferBindingType {
    BufferBindingType::Storage { read_only: false }
}

/// The one bound buffer of a group that binds `buffer` to slot 0 for access
/// of kind `ty`.
pub open spec fn sole_binding(buffer: usize, ty: BufferBindingType) -> Seq<BindGroupEntry> {
    seq![BindGroupEntry { binding: 0, buffer, ty }]
}

/// The vertex buffers of the pipeline that draws particles: one record of
/// six floats per instance, as two attributes of three, and one vertex of
/// three floats.
pub open spec fn particle_instance_slots() -> Seq<(u32, VertexFormat)> {
    seq![(0u32, VertexFormat::Float32x3), (1u32, VertexFormat::Float32x3)]
}

/// The vertex buffer that holds one cell per instance.
pub open spec fn cell_instance_slots() -> Seq<(u32, VertexFormat)> {
    seq![(0u32, VertexFormat::Float32)]
}

/// The vertex buffer that holds a shape, its position at shader location
/// `location`.
pub open spec fn shape_slots(location: u32) -> Seq<(u32, VertexFormat)> {
    seq![(location, VertexFormat::Float32x3)]
}

/// Whether `layouts` are an instance buffer of stride `stride` with the
/// attributes `instance`, followed by a shape buffer of three floats a
/// vertex at location `location`.
pub open spec fn reads_instances_and_shape(
    layouts: Seq<VertexBufferLayout>,
    stride: u64,
    instance: Seq<(u32, VertexFormat)>,
    location: u32,
) -> bool {
    &&& layouts.len() == 2
    &&& layouts[0].array_stride == stride
    &&& layouts[0].step_mode == VertexStepMode::Instance
    &&& layouts[0].attributes@ == packed_attributes(instance)
    &&& layouts[1].array_stride == VERTEX_STRIDE
    &&& layouts[1].step_mode == VertexStepMode::Vertex
    &&& layouts[1].attributes@ == packed_attributes(shape_slots(location))
}

/// The kinds of the resources that startup creates, in order of creation.
pub open spec fn startup_log() -> Seq<ResourceKind> {
    Seq::new(5, |i: int| ResourceKind::ShaderModule) + Seq::new(3, |i: int| ResourceKind::Buffer)
        + Seq::new(5, |i: int| ResourceKind::BindGroupLayout) + Seq::new(
        5,
        |i: int| ResourceKind::PipelineLayout,
    ) + Seq::new(2, |i: int| ResourceKind::ComputePipeline) + Seq::new(
        3,
        |i: int| ResourceKind::RenderPipeline,
    ) + seq![
        ResourceKind::Buffer,
        ResourceKind::BindGroup,
        ResourceKind::Buffer,
        ResourceKind::BindGroup,
        ResourceKind::Buffer,
        ResourceKind::BindGroup,
        ResourceKind::BindGroup,
        ResourceKind::BindGroup,
    ]
}

/// Startup creates thirty-one resources.
pub proof fn lemma_startup_count()
    ensures
        startup_log().len() == STARTUP_RESOURCES,
{
}

impl Resources {
    /// The resources were created one after another on a device that had
    /// created `base` resources before.
    pub open spec fn numbered_from(&self, base: int) -> bool {
        &&& self.compute_particles_shader.id == base
        &&& self.compute_map_shader.id == base + 1
        &&& self.render_particle_shader.id == base + 2
        &&& self.render_map_shader.id == base + 3
        &&& self.render_indicator_shader.id == base + 4
        &&& self.constant_data_buffer.id == base + 5
        &&& self.triangle_vertex_buffer.id == base + 6
        &&& self.square_vertex_buffer.id == base + 7
        &&& self.binding_constants_compute.id == base + 8
        &&& self.binding_constants_vertex.id == base + 9
        &&& self.binding_particles_compute.id == base + 10
        &&& self.binding_map_compute.id == base + 11
        &&& self.binding_map_vertex.id == base + 12
        &&& self.pipeline_layout_compute.id == base + 13
        &&& self.pipeline_layout_compute_map.id == base + 14
        &&& self.pipeline_layout_render_map.id == base + 15
        &&& self.pipeline_layout_render_indicators.id == base + 16
        &&& self.pipeline_layout_render_particles.id == base + 17
        &&& self.compute_pipeline.id == base + 18
        &&& self.compute_map_pipeline.id == base + 19
        &&& self.pipeline_render_particles.id == base + 20
        &&& self.pipeline_render_map.id == base + 21
        &&& self.pipeline_render_indicators.id == base + 22
        &&& self.raw_particle_buffer.id == base + 23
        &&& self.particle_bind_group.id == base + 24
        &&& self.raw_map_buffer.id == base + 25
        &&& self.map_bind_group.id == base + 26
        &&& self.raw_indicator_buffer.id == base + 27
        &&& self.indicator_bind_group_compute.id == base + 28
        &&& self.const_bind_compute_group.id == base + 29
        &&& self.const_bind_vertex_group.id == base + 30
    }

    /// The shader modules hold the given source texts.
    pub open spec fn compiled_from(&self, sources: &ShaderSources) -> bool {
        &&& self.compute_particles_shader.source@ == sources.compute_particles@
        &&& self.compute_map_shader.source@ == sources.compute_map@
        &&& self.render_particle_shader.source@ == sources.render_particles@
        &&& self.render_map_shader.source@ == sources.render_map@
        &&& self.render_indicator_shader.source@ == sources.render_indicators@
    }

    /// Every buffer has four bytes for each scalar it was created from, and
    /// the usages of [`simulation_usages`]; both grids are all zero.
    pub open spec fn sized_for(&self, particles: nat, cells: nat) -> bool {
        &&& self.constant_data_buffer.size() == PARAMETER_BYTES
        &&& self.triangle_vertex_buffer.size() == VERTEX_STRIDE * TRIANGLE_VERTICES
        &&& self.square_vertex_buffer.size() == VERTEX_STRIDE * SQUARE_VERTICES
        &&& self.raw_particle_buffer.size() == RECORD_BYTES * particles
        &&& self.raw_map_buffer.size() == CELL_BYTES * cells
        &&& self.raw_indicator_buffer.size() == CELL_BYTES * cells
        &&& self.constant_data_buffer.usage == simulation_usages()
        &&& self.triangle_vertex_buffer.usage == simulation_usages()
        &&& self.square_vertex_buffer.usage == simulation_usages()
        &&& self.raw_particle_buffer.usage == simulation_usages()
        &&& self.raw_map_buffer.usage == simulation_usages()
        &&& self.raw_indicator_buffer.usage == simulation_usages()
        &&& forall|j: int| 0 <= j < self.raw_map_buffer.size() ==> self.raw_map_buffer.contents@[j] == 0
        &&& forall|j: int|
            0 <= j < self.raw_indicator_buffer.size() ==> self.raw_indicator_buffer.contents@[j]
                == 0
    }

    /// Each binding layout has one slot, which declares the byte size of the
    /// store it is for: the parameter block as a uniform of the compute and
    /// of the vertex stage, the particle store and a grid as writable
    /// storage of the compute stage, a grid as a uniform of the vertex
    /// stage.
    pub open spec fn declared_for(&self, particles: nat, cells: nat) -> bool {
        &&& self.binding_constants_compute.entries@ == layout_entries(
            ShaderStage::Compute,
            BufferBindingType::Uniform,
            seq![PARAMETER_BYTES],
        )
        &&& self.binding_constants_vertex.entries@ == layout_entries(
            ShaderStage::Vertex,
            BufferBindingType::Uniform,
            seq![PARAMETER_BYTES],
        )
        &&& self.binding_particles_compute.entries@ == layout_entries(
            ShaderStage::Compute,
            read_write(),
            seq![(RECORD_BYTES * particles) as u32],
        )
        &&& self.binding_map_compute.entries@ == layout_entries(
            ShaderStage::Compute,
            read_write(),
            seq![(CELL_BYTES * cells) as u32],
        )
        &&& self.binding_map_vertex.entries@ == layout_entries(
            ShaderStage::Vertex,
            BufferBindingType::Uniform,
            seq![(CELL_BYTES * cells) as u32],
        )
    }

    /// The pipeline layouts list the binding layouts of their groups: the
    /// particle stage takes parameters, particles, map and indicator; the
    /// map stage takes parameters, map and indicator; every render pipeline
    /// takes the parameters alone.
    pub open spec fn grouped(&self) -> bool {
        &&& self.pipeline_layout_compute.bind_group_layouts@ == seq![
            self.binding_constants_compute.id,
            self.binding_particles_compute.id,
            self.binding_map_compute.id,
            self.binding_map_compute.id,
        ]
        &&& self.pipeline_layout_compute_map.bind_group_layouts@ == seq![
            self.binding_constants_compute.id,
            self.binding_map_compute.id,
            self.binding_map_compute.id,
        ]
        &&& self.pipeline_layout_render_map.bind_group_layouts@ == seq![
            self.binding_constants_vertex.id,
        ]
        &&& self.pipeline_layout_render_indicators.bind_group_layouts@ == seq![
            self.binding_constants_vertex.id,
        ]
        &&& self.pipeline_layout_render_particles.bind_group_layouts@ == seq![
            self.binding_constants_vertex.id,
        ]
    }

    /// Each pipeline runs its own shader with its own layout. The compute
    /// pipelines enter at `main`.
    pub open spec fn compute_pipelined(&self) -> bool {
        &&& self.compute_pipeline.layout == self.pipeline_layout_compute.id
        &&& self.compute_pipeline.module == self.compute_particles_shader.id
        &&& self.compute_pipeline.entry_point@ == "main"@
        &&& self.compute_map_pipeline.layout == self.pipeline_layout_compute_map.id
        &&& self.compute_map_pipeline.module == self.compute_map_shader.id
        &&& self.compute_map_pipeline.entry_point@ == "main"@
    }

    /// A render pipeline of the simulation: entry points `main_vs` and
    /// `main_fs`, one unblended target of format `format` with every channel
    /// written, triangle lists, one sample.
    pub open spec fn drawn_as(
        pipeline: &RenderPipeline,
        layout: usize,
        module: usize,
        format: wgpu::TextureFormat,
    ) -> bool {
        &&& pipeline.layout == layout
        &&& pipeline.module == module
        &&& pipeline.vertex_entry@ == "main_vs"@
        &&& pipeline.fragment_entry@ == "main_fs"@
        &&& pipeline.target.format == format
        &&& !pipeline.target.blend
        &&& pipeline.target.write_mask == all_channels()
        &&& pipeline.primitive == triangle_list()
        &&& pipeline.multisample == single_sample()
    }

    /// The three render pipelines. Particles are drawn from records of 24
    /// bytes with the shape at location 2; cells from scalars of 4 bytes with
    /// the shape at location 1.
    pub open spec fn render_pipelined(&self, format: wgpu::TextureFormat) -> bool {
        &&& Self::drawn_as(
            &self.pipeline_render_particles,
            self.pipeline_layout_render_particles.id,
            self.render_particle_shader.id,
            format,
        )
        &&& reads_instances_and_shape(
            self.pipeline_render_particles.buffers@,
            RECORD_BYTES as u64,
            particle_instance_slots(),
            2,
        )
        &&& Self::drawn_as(
            &self.pipeline_render_map,
            self.pipeline_layout_render_map.id,
            self.render_map_shader.id,
            format,
        )
        &&& reads_instances_and_shape(
            self.pipeline_render_map.buffers@,
            CELL_BYTES as u64,
            cell_instance_slots(),
            1,
        )
        &&& Self::drawn_as(
            &self.pipeline_render_indicators,
            self.pipeline_layout_render_indicators.id,
            self.render_indicator_shader.id,
            format,
        )
        &&& reads_instances_and_shape(
            self.pipeline_render_indicators.buffers@,
            CELL_BYTES as u64,
            cell_instance_slots(),
            1,
        )
    }

    /// Each bind group binds one whole buffer to slot 0 of its layout: the
    /// particle store, the map and the indicator as writable storage, the
    /// parameter block as a uniform, once for the compute stage and once for
    /// the vertex stage.
    pub open spec fn bound(&self) -> bool {
        &&& self.particle_bind_group.layout == self.binding_particles_compute.id
        &&& self.particle_bind_group.entries@ == sole_binding(
            self.raw_particle_buffer.id,
            read_write(),
        )
        &&& self.map_bind_group.layout == self.binding_map_compute.id
        &&& self.map_bind_group.entries@ == sole_binding(self.raw_map_buffer.id, read_write())
        &&& self.indicator_bind_group_compute.layout == self.binding_map_compute.id
        &&& self.indicator_bind_group_compute.entries@ == sole_binding(
            self.raw_indicator_buffer.id,
            read_write(),
        )
        &&& self.const_bind_compute_group.layout == self.binding_constants_compute.id
        &&& self.const_bind_compute_group.entries@ == sole_binding(
            self.constant_data_buffer.id,
            BufferBindingType::Uniform,
        )
        &&& self.const_bind_vertex_group.layout == self.binding_constants_vertex.id
        &&& self.const_bind_vertex_group.entries@ == sole_binding(
            self.constant_data_buffer.id,
            BufferBindingType::Uniform,
        )
    }

    /// Every buffer holds the scalars of its store as they lie in memory:
    /// the twelve parameters in order, the coordinates of the two shapes,
    /// the particle records one after another, and a zero for every cell of
    /// either grid.
    pub open spec fn filled_with(
        &self,
        parameters: Seq<u32>,
        particles: Seq<ParticleRecord>,
        cells: nat,
    ) -> bool {
        &&& holds_words(self.constant_data_buffer.contents@, parameters)
        &&& holds_words(self.triangle_vertex_buffer.contents@, triangle_words())
        &&& holds_words(self.square_vertex_buffer.contents@, square_words())
        &&& holds_words(self.raw_particle_buffer.contents@, flatten(particles))
        &&& holds_words(self.raw_map_buffer.contents@, Seq::new(cells, |i: int| 0u32))
        &&& holds_words(self.raw_indicator_buffer.contents@, Seq::new(cells, |i: int| 0u32))
    }

    /// All that startup establishes, for a device that had created `base`
    /// resources before.
    pub open spec fn built(
        &self,
        base: int,
        format: wgpu::TextureFormat,
        sources: &ShaderSources,
        parameters: Seq<u32>,
        particles: Seq<ParticleRecord>,
        cells: nat,
    ) -> bool {
        &&& self.numbered_from(base)
        &&& self.compiled_from(sources)
        &&& self.filled_with(parameters, particles, cells)
        &&& self.sized_for(particles.len(), cells)
        &&& self.declared_for(particles.len(), cells)
        &&& self.grouped()
        &&& self.compute_pipelined()
        &&& self.render_pipelined(format)
        &&& self.bound()
    }

    /// The buffers bound to one dispatch of the map stage, group after group.
    pub open spec fn map_stage_bindings(&self) -> Seq<BindGroupEntry> {
        self.const_bind_compute_group.entries@ + self.map_bind_group.entries@
            + self.indicator_bind_group_compute.entries@
    }

    /// The buffers bound to one dispatch of the particle stage, group after
    /// group.
    pub open spec fn particle_stage_bindings(&self) -> Seq<BindGroupEntry> {
        self.const_bind_compute_group.entries@ + self.particle_bind_group.entries@
            + self.map_bind_group.entries@ + self.indicator_bind_group_compute.entries@
    }
}

/// Creates a one-slot layout's bind group for a buffer known to fit it.
fn bind_whole(
    device: &mut Device,
    layout: &BindGroupLayout,
    buffer: &Buffer,
    Ghost(stage): Ghost<ShaderStage>,
    Ghost(ty): Ghost<BufferBindingType>,
    Ghost(size): Ghost<u32>,
) -> (group: Result<BindGroup, ConfigError>)
    requires
        layout.entries@ == layout_entries(stage, ty, seq![size]),
        buffer.usage == simulation_usages(),
        buffer.size() >= size,
    ensures
        group is Ok,
        final(device)@ == old(device)@.push(ResourceKind::BindGroup),
        group->Ok_0.id == old(device)@.len(),
        group->Ok_0.layout == layout.id,
        group->Ok_0.entries@ == sole_binding(buffer.id, ty),
{
    let buffers: Vec<&Buffer> = vec![buffer];
    proof {
        lemma_sized_buffers_bind(stage, ty, seq![size], buffers@);
    }
    let group = make_bind_group(device, layout, buffers.as_slice());
    proof {
        if group is Ok {
            assert(group->Ok_0.entries@ =~= sole_binding(buffer.id, ty));
        }
    }
    group
}

/// The orchestrator. It owns every resource, and it alone says which passes
/// a frame holds.
pub struct State {
    resources: Resources,
    particles: u32,
    cells: u32,
    settings: Settings,
    phase: Phase,
    frame_num: u32,
}

impl State {
    /// The resources created at startup.
    pub closed spec fn res(&self) -> Resources {
        self.resources
    }

    /// Number of particles.
    pub closed spec fn particle_count(&self) -> nat {
        self.particles as nat
    }

    /// Number of cells of each grid.
    pub closed spec fn cell_count(&self) -> nat {
        self.cells as nat
    }

    /// The settings of the run.
    pub closed spec fn settings(&self) -> Settings {
        self.settings
    }

    /// Where the orchestrator stands.
    pub closed spec fn phase(&self) -> Phase {
        self.phase
    }

    /// Number of frames completed.
    pub closed spec fn frames(&self) -> nat {
        self.frame_num as nat
    }

    /// The six buffers are six different buffers, every bind group binds
    /// what [`Resources::bound`] says, and every buffer has the size that
    /// its store asks for.
    pub closed spec fn wf(&self) -> bool {
        &&& exists|base: int| self.resources.numbered_from(base)
        &&& self.resources.sized_for(self.particles as nat, self.cells as nat)
        &&& self.resources.declared_for(self.particles as nat, self.cells as nat)
        &&& self.resources.grouped()
        &&& self.resources.compute_pipelined()
        &&& self.resources.bound()
        &&& RECORD_BYTES * self.particles <= u32::MAX
        &&& CELL_BYTES * self.cells <= u32::MAX
    }

    /// The dispatch of the map stage: parameters, map and indicator in
    /// groups 0 to 2, one invocation per cell.
    pub open spec fn map_pass(&self) -> PassView {
        PassView::Compute(
            ComputePassView {
                kind: PassKind::MapUpdate,
                pipeline: self.res().compute_map_pipeline.id,
                bind_groups: seq![
                    self.res().const_bind_compute_group.id,
                    self.res().map_bind_group.id,
                    self.res().indicator_bind_group_compute.id,
                ],
                workgroups: workgroups_for(self.cell_count()) as u32,
            },
        )
    }

    /// The dispatch of the particle stage: parameters, particles, map and
    /// indicator in groups 0 to 3, one invocation per particle.
    pub open spec fn particle_pass(&self) -> PassView {
        PassView::Compute(
            ComputePassView {
                kind: PassKind::ParticleUpdate,
                pipeline: self.res().compute_pipeline.id,
                bind_groups: seq![
                    self.res().const_bind_compute_group.id,
                    self.res().particle_bind_group.id,
                    self.res().map_bind_group.id,
                    self.res().indicator_bind_group_compute.id,
                ],
                workgroups: workgroups_for(self.particle_count()) as u32,
            },
        )
    }

    /// The draw of the map: one quad per cell.
    pub open spec fn map_draw(&self) -> PassView {
        PassView::Render(
            RenderPass {
                kind: PassKind::RenderMap,
                pipeline: self.res().pipeline_render_map.id,
                bind_group: self.res().const_bind_vertex_group.id,
                instance_buffer: self.res().raw_map_buffer.id,
                shape_buffer: self.res().square_vertex_buffer.id,
                vertices: SQUARE_VERTICES,
                instances: self.cell_count() as u32,
            },
        )
    }

    /// The draw of the particles: one marker per particle.
    pub open spec fn particle_draw(&self) -> PassView {
        PassView::Render(
            RenderPass {
                kind: PassKind::RenderParticles,
                pipeline: self.res().pipeline_render_particles.id,
                bind_group: self.res().const_bind_vertex_group.id,
                instance_buffer: self.res().raw_particle_buffer.id,
                shape_buffer: self.res().triangle_vertex_buffer.id,
                vertices: TRIANGLE_VERTICES,
                instances: self.particle_count() as u32,
            },
        )
    }

    /// The draw of the indicator: one quad per cell.
    pub open spec fn indicator_draw(&self) -> PassView {
        PassView::Render(
            RenderPass {
                kind: PassKind::RenderIndicators,
                pipeline: self.res().pipeline_render_indicators.id,
                bind_group: self.res().const_bind_vertex_group.id,
                instance_buffer: self.res().raw_indicator_buffer.id,
                shape_buffer: self.res().square_vertex_buffer.id,
                vertices: SQUARE_VERTICES,
                instances: self.cell_count() as u32,
            },
        )
    }

    /// The compute passes of `iterations` simulation steps: for each step the
    /// map stage, then the particle stage.
    pub open spec fn simulation_passes(&self, iterations: nat) -> Seq<PassView>
        decreases iterations,
    {
        if iterations == 0 {
            Seq::empty()
        } else {
            self.simulation_passes((iterations - 1) as nat) + seq![
                self.map_pass(),
                self.particle_pass(),
            ]
        }
    }

    /// The render passes of a frame: the map, then the particles and the
    /// indicator where the settings ask for them.
    pub open spec fn render_passes(&self) -> Seq<PassView> {
        seq![self.map_draw()] + (if self.settings().render_particles {
            seq![self.particle_draw()]
        } else {
            Seq::empty()
        }) + (if self.settings().render_indicators {
            seq![self.indicator_draw()]
        } else {
            Seq::empty()
        })
    }

    /// The passes of a frame: all compute passes, then all render passes.
    pub open spec fn frame_plan(&self) -> Seq<PassView> {
        self.simulation_passes(self.settings().iterations as nat) + self.render_passes()
    }

    /// Creates every resource of the simulation, once: the five shader
    /// modules; the buffers of the parameter block and of the two shapes;
    /// the binding layouts, pipeline layouts and pipelines; the buffers of
    /// the particle store and of the two grids, each with its bind group;
    /// and the two bind groups of the parameter block. The frame counter
    /// starts at zero, between frames.
    ///
    /// Startup fails only when the particle store is too large, and then
    /// creates nothing. In every other case each buffer is at least as large
    /// as the slot it is bound to declares, so every bind group is created.
    pub fn init(
        config: &SurfaceConfiguration,
        device: &mut Device,
        sources: &ShaderSources,
        parameters: &ParameterBlock,
        particles: &ParticleStore,
        field: &FieldStore,
        settings: Settings,
    ) -> (state: Result<State, ConfigError>)
        requires
            particles.wf(),
            field.wf(),
        ensures
            match state {
                Ok(s) => {
                    &&& ParticleStore::fits(particles@.len())
                    &&& s.wf()
                    &&& s.res().built(
                        old(device)@.len() as int,
                        config.format,
                        sources,
                        parameters@,
                        particles@,
                        cells_of(field.side()),
                    )
                    &&& s.particle_count() == particles@.len()
                    &&& s.cell_count() == cells_of(field.side())
                    &&& s.settings() == settings
                    &&& s.phase() == Phase::Idle
                    &&& s.frames() == 0
                    &&& final(device)@ == old(device)@ + startup_log()
                },
                Err(e) => {
                    &&& !ParticleStore::fits(particles@.len())
                    &&& e == ConfigError::ParticleStoreTooLarge
                    &&& final(device)@ == old(device)@
                },
            },
    {
        let count = particles.len();
        if count > 178_956_970 {
            return Err(ConfigError::ParticleStoreTooLarge);
        }
        proof {
            field.lemma_wf();
        }
        let ghost base = device@.len() as int;
        let ghost log0 = device@;
        let particle_bytes: u32 = RECORD_BYTES * (count as u32);
        let cells: u32 = field.cell_count();
        let grid_bytes: u32 = field.grid_bytes();

        let compute_particles_shader = make_shader(device, sources.compute_particles.as_str());
        let compute_map_shader = make_shader(device, sources.compute_map.as_str());
        let render_particle_shader = make_shader(device, sources.render_particles.as_str());
        let render_map_shader = make_shader(device, sources.render_map.as_str());
        let render_indicator_shader = make_shader(device, sources.render_indicators.as_str());

        let constant_data_buffer = make_buffer(device, &parameters.words());
        let triangle_vertex_buffer = make_buffer(device, &triangle());
        let square_vertex_buffer = make_buffer(device, &square());

        let parameter_sizes: Vec<u32> = vec![PARAMETER_BYTES];
        let particle_sizes: Vec<u32> = vec![particle_bytes];
        let grid_sizes: Vec<u32> = vec![grid_bytes];
        proof {
            assert(parameter_sizes@ =~= seq![PARAMETER_BYTES]);
            assert(particle_sizes@ =~= seq![particle_bytes]);
            assert(grid_sizes@ =~= seq![grid_bytes]);
        }
        let binding_constants_compute = make_binding_layout(
            device,
            ShaderStage::Compute,
            BufferBindingType::Uniform,
            parameter_sizes.as_slice(),
        );
        let binding_constants_vertex = make_binding_layout(
            device,
            ShaderStage::Vertex,
            BufferBindingType::Uniform,
            parameter_sizes.as_slice(),
        );
        let binding_particles_compute = make_binding_layout(
            device,
            ShaderStage::Compute,
            BufferBindingType::Storage { read_only: false },
            particle_sizes.as_slice(),
        );
        let binding_map_compute = make_binding_layout(
            device,
            ShaderStage::Compute,
            BufferBindingType::Storage { read_only: false },
            grid_sizes.as_slice(),
        );
        let binding_map_vertex = make_binding_layout(
            device,
            ShaderStage::Vertex,
            BufferBindingType::Uniform,
            grid_sizes.as_slice(),
        );

        let particle_stage_groups: Vec<&BindGroupLayout> = vec![
            &binding_constants_compute,
            &binding_particles_compute,
            &binding_map_compute,
            &binding_map_compute,
        ];
        let map_stage_groups: Vec<&BindGroupLayout> = vec![
            &binding_constants_compute,
            &binding_map_compute,
            &binding_map_compute,
        ];
        let render_groups: Vec<&BindGroupLayout> = vec![&binding_constants_vertex];
        let pipeline_layout_compute = make_pipeline_layout(device, particle_stage_groups.as_slice());
        let pipeline_layout_compute_map = make_pipeline_layout(device, map_stage_groups.as_slice());
        let pipeline_layout_render_map = make_pipeline_layout(device, render_groups.as_slice());
        let pipeline_layout_render_indicators = make_pipeline_layout(
            device,
            render_groups.as_slice(),
        );
        let pipeline_layout_render_particles = make_pipeline_layout(
            device,
            render_groups.as_slice(),
        );
        proof {
            assert(pipeline_layout_compute.bind_group_layouts@ =~= seq![
                binding_constants_compute.id,
                binding_particles_compute.id,
                binding_map_compute.id,
                binding_map_compute.id,
            ]);
            assert(pipeline_layout_compute_map.bind_group_layouts@ =~= seq![
                binding_constants_compute.id,
                binding_map_compute.id,
                binding_map_compute.id,
            ]);
            assert(pipeline_layout_render_map.bind_group_layouts@ =~= seq![
                binding_constants_vertex.id,
            ]);
            assert(pipeline_layout_render_indicators.bind_group_layouts@ =~= seq![
                binding_constants_vertex.id,
            ]);
            assert(pipeline_layout_render_particles.bind_group_layouts@ =~= seq![
                binding_constants_vertex.id,
            ]);
        }

        let compute_pipeline = make_compute_pipeline(
            device,
            &pipeline_layout_compute,
            &compute_particles_shader,
        );
        let compute_map_pipeline = make_compute_pipeline(
            device,
            &pipeline_layout_compute_map,
            &compute_map_shader,
        );

        let pipeline_render_particles = make_render_pipeline(
            device,
            config,
            &pipeline_layout_render_particles,
            &render_particle_shader,
            particle_vertex_buffers(),
        );
        let pipeline_render_map = make_render_pipeline(
            device,
            config,
            &pipeline_layout_render_map,
            &render_map_shader,
            cell_vertex_buffers(),
        );
        let pipeline_render_indicators = make_render_pipeline(
            device,
            config,
            &pipeline_layout_render_indicators,
            &render_indicator_shader,
            cell_vertex_buffers(),
        );

        let raw_particle_buffer = make_buffer(device, particles.words());
        let particle_bind_group = match bind_whole(
            device,
            &binding_particles_compute,
            &raw_particle_buffer,
            Ghost(ShaderStage::Compute),
            Ghost(read_write()),
            Ghost(particle_bytes),
        ) {
            Ok(group) => group,
            Err(e) => {
                return Err(e);
            },
        };
        let raw_map_buffer = make_buffer(device, field.map_cells());
        let map_bind_group = match bind_whole(
            device,
            &binding_map_compute,
            &raw_map_buffer,
            Ghost(ShaderStage::Compute),
            Ghost(read_write()),
            Ghost(grid_bytes),
        ) {
            Ok(group) => group,
            Err(e) => {
                return Err(e);
            },
        };
        let raw_indicator_buffer = make_buffer(device, field.indicator_cells());
        let indicator_bind_group_compute = match bind_whole(
            device,
            &binding_map_compute,
            &raw_indicator_buffer,
            Ghost(ShaderStage::Compute),
            Ghost(read_write()),
            Ghost(grid_bytes),
        ) {
            Ok(group) => group,
            Err(e) => {
                return Err(e);
            },
        };
        let const_bind_compute_group = match bind_whole(
            device,
            &binding_constants_compute,
            &constant_data_buffer,
            Ghost(ShaderStage::Compute),
            Ghost(BufferBindingType::Uniform),
            Ghost(PARAMETER_BYTES),
        ) {
            Ok(group) => group,
            Err(e) => {
                return Err(e);
            },
        };
        let const_bind_vertex_group = match bind_whole(
            device,
            &binding_constants_vertex,
            &constant_data_buffer,
            Ghost(ShaderStage::Vertex),
            Ghost(BufferBindingType::Uniform),
            Ghost(PARAMETER_BYTES),
        ) {
            Ok(group) => group,
            Err(e) => {
                return Err(e);
            },
        };
        proof {
            assert(device@ =~= log0 + startup_log());
        }

        let resources = Resources {
            compute_particles_shader,
            compute_map_shader,
            render_particle_shader,
            render_map_shader,
            render_indicator_shader,
            constant_data_buffer,
            triangle_vertex_buffer,
            square_vertex_buffer,
            binding_constants_compute,
            binding_constants_vertex,
            binding_particles_compute,
            binding_map_compute,
            binding_map_vertex,
            pipeline_layout_compute,
            pipeline_layout_compute_map,
            pipeline_layout_render_map,
            pipeline_layout_render_indicators,
            pipeline_layout_render_particles,
            compute_pipeline,
            compute_map_pipeline,
            pipeline_render_particles,
            pipeline_render_map,
            pipeline_render_indicators,
            raw_particle_buffer,
            particle_bind_group,
            raw_map_buffer,
            map_bind_group,
            raw_indicator_buffer,
            indicator_bind_group_compute,
            const_bind_compute_group,
            const_bind_vertex_group,
        };
        proof {
            assert(resources.numbered_from(base));
        }
        Ok(
            State {
                resources,
                particles: count as u32,
                cells,
                settings,
                phase: Phase::Idle,
                frame_num: 0,
            },
        )
    }
}

impl State {
    /// The resources created at startup.
    pub fn resources(&self) -> (resources: &Resources)
        ensures
            *resources == self.res(),
    {
        &self.resources
    }

    /// Number of particles.
    pub fn num_particles(&self) -> (n: u32)
        ensures
            n == self.particle_count(),
    {
        self.particles
    }

    /// Number of cells of each grid.
    pub fn num_cells(&self) -> (n: u32)
        ensures
            n == self.cell_count(),
    {
        self.cells
    }

    /// The settings of the run.
    pub fn current_settings(&self) -> (settings: Settings)
        ensures
            settings == self.settings(),
    {
        self.settings
    }

    /// Where the orchestrator stands.
    pub fn current_phase(&self) -> (phase: Phase)
        ensures
            phase == self.phase(),
    {
        self.phase
    }

    /// Number of frames completed.
    pub fn frame_num(&self) -> (n: u32)
        ensures
            n == self.frames(),
    {
        self.frame_num
    }

    /// What a well-formed orchestrator holds.
    pub proof fn lemma_wf(&self)
        requires
            self.wf(),
        ensures
            exists|base: int| self.res().numbered_from(base),
            self.res().sized_for(self.particle_count(), self.cell_count()),
            self.res().declared_for(self.particle_count(), self.cell_count()),
            self.res().grouped(),
            self.res().compute_pipelined(),
            self.res().bound(),
            RECORD_BYTES * self.particle_count() <= u32::MAX,
            CELL_BYTES * self.cell_count() <= u32::MAX,
    {
    }

    /// The dispatch of the map stage.
    pub fn map_dispatch(&self) -> (pass: ComputePass)
        ensures
            PassView::Compute(pass@) == self.map_pass(),
    {
        let bind_groups = vec![
            self.resources.const_bind_compute_group.id,
            self.resources.map_bind_group.id,
            self.resources.indicator_bind_group_compute.id,
        ];
        let pass = ComputePass {
            kind: PassKind::MapUpdate,
            pipeline: self.resources.compute_map_pipeline.id,
            bind_groups,
            workgroups: workgroup_count(self.cells),
        };
        assert(pass@.bind_groups =~= self.map_pass()->Compute_0.bind_groups);
        pass
    }

    /// The dispatch of the particle stage.
    pub fn particle_dispatch(&self) -> (pass: ComputePass)
        ensures
            PassView::Compute(pass@) == self.particle_pass(),
    {
        let bind_groups = vec![
            self.resources.const_bind_compute_group.id,
            self.resources.particle_bind_group.id,
            self.resources.map_bind_group.id,
            self.resources.indicator_bind_group_compute.id,
        ];
        let pass = ComputePass {
            kind: PassKind::ParticleUpdate,
            pipeline: self.resources.compute_pipeline.id,
            bind_groups,
            workgroups: workgroup_count(self.particles),
        };
        assert(pass@.bind_groups =~= self.particle_pass()->Compute_0.bind_groups);
        pass
    }

    /// The passes of the next frame, in the order in which they are
    /// submitted. Nothing changes.
    pub fn plan_frame(&self) -> (plan: Vec<Pass>)
        ensures
            plan_view(plan@) == self.frame_plan(),
    {
        let mut plan: Vec<Pass> = Vec::new();
        let mut done: u32 = 0;
        assert(plan_view(plan@) =~= self.simulation_passes(0));
        while done < self.settings.iterations
            invariant
                done <= self.settings.iterations,
                plan_view(plan@) == self.simulation_passes(done as nat),
            decreases self.settings.iterations - done,
        {
            let ghost before = plan@;
            let map_pass = self.map_dispatch();
            let particle_pass = self.particle_dispatch();
            plan.push(Pass::Compute(map_pass));
            plan.push(Pass::Compute(particle_pass));
            done = done + 1;
            assert(plan_view(plan@) =~= plan_view(before) + seq![
                self.map_pass(),
                self.particle_pass(),
            ]);
        }
        let ghost computed = plan@;
        plan.push(
            Pass::Render(
                RenderPass {
                    kind: PassKind::RenderMap,
                    pipeline: self.resources.pipeline_render_map.id,
                    bind_group: self.resources.const_bind_vertex_group.id,
                    instance_buffer: self.resources.raw_map_buffer.id,
                    shape_buffer: self.resources.square_vertex_buffer.id,
                    vertices: SQUARE_VERTICES,
                    instances: self.cells,
                },
            ),
        );
        if self.settings.render_particles {
            plan.push(
                Pass::Render(
                    RenderPass {
                        kind: PassKind::RenderParticles,
                        pipeline: self.resources.pipeline_render_particles.id,
                        bind_group: self.resources.const_bind_vertex_group.id,
                        instance_buffer: self.resources.raw_particle_buffer.id,
                        shape_buffer: self.resources.triangle_vertex_buffer.id,
                        vertices: TRIANGLE_VERTICES,
                        instances: self.particles,
                    },
                ),
            );
        }
        if self.settings.render_indicators {
            plan.push(
                Pass::Render(
                    RenderPass {
                        kind: PassKind::RenderIndicators,
                        pipeline: self.resources.pipeline_render_indicators.id,
                        bind_group: self.resources.const_bind_vertex_group.id,
                        instance_buffer: self.resources.raw_indicator_buffer.id,
                        shape_buffer: self.resources.square_vertex_buffer.id,
                        vertices: SQUARE_VERTICES,
                        instances: self.cells,
                    },
                ),
            );
        }
        assert(plan_view(plan@) =~= plan_view(computed) + self.render_passes());
        plan
    }

    /// Begins a frame: returns its passes and leaves the orchestrator within
    /// the frame. The frame counter and the resources stay as they are.
    pub fn begin_frame(&mut self) -> (plan: Vec<Pass>)
        requires
            old(self).phase() == Phase::Idle,
        ensures
            plan_view(plan@) == old(self).frame_plan(),
            final(self).phase() == Phase::FrameInProgress,
            final(self).unchanged_but_phase(*old(self)),
            final(self).frames() == old(self).frames(),
    {
        let plan = self.plan_frame();
        self.phase = Phase::FrameInProgress;
        proof {
            self.lemma_same_plan(*old(self));
        }
        plan
    }

    /// Completes the frame whose passes were submitted: the frame counter
    /// grows by one, whatever the number of simulation steps in the frame.
    pub fn end_frame(&mut self)
        requires
            old(self).phase() == Phase::FrameInProgress,
            old(self).frames() < u32::MAX,
        ensures
            final(self).phase() == Phase::Idle,
            final(self).unchanged_but_phase(*old(self)),
            final(self).frames() == old(self).frames() + 1,
    {
        self.frame_num = self.frame_num + 1;
        self.phase = Phase::Idle;
        proof {
            self.lemma_same_plan(*old(self));
        }
    }

    /// Gives up the frame that was begun, nothing of it having been
    /// submitted. The frame does not count.
    pub fn abandon_frame(&mut self)
        requires
            old(self).phase() == Phase::FrameInProgress,
        ensures
            final(self).phase() == Phase::Idle,
            final(self).unchanged_but_phase(*old(self)),
            final(self).frames() == old(self).frames(),
    {
        self.phase = Phase::Idle;
        proof {
            self.lemma_same_plan(*old(self));
        }
    }

    /// Runs one whole frame: returns the passes to submit and counts the
    /// frame. The orchestrator is between frames before and after.
    pub fn render(&mut self) -> (plan: Vec<Pass>)
        requires
            old(self).phase() == Phase::Idle,
            old(self).frames() < u32::MAX,
        ensures
            plan_view(plan@) == old(self).frame_plan(),
            final(self).phase() == Phase::Idle,
            final(self).unchanged_but_phase(*old(self)),
            final(self).frames() == old(self).frames() + 1,
    {
        let plan = self.begin_frame();
        self.end_frame();
        proof {
            self.lemma_same_plan(*old(self));
        }
        plan
    }

    /// Takes note of an input event. The simulation reacts to none.
    pub fn update(&mut self)
        ensures
            *final(self) == *old(self),
            final(self).unchanged_but_phase(*old(self)),
    {
    }

    /// Takes note of a new surface size. Nothing of the simulation depends
    /// on it.
    pub fn resize(&mut self, config: &SurfaceConfiguration)
        ensures
            *final(self) == *old(self),
            final(self).unchanged_but_phase(*old(self)),
    {
    }

    /// The compute passes of a frame are settled by the resources and the
    /// two counts.
    pub proof fn lemma_same_simulation(&self, other: State, iterations: nat)
        requires
            self.res() == other.res(),
            self.particle_count() == other.particle_count(),
            self.cell_count() == other.cell_count(),
        ensures
            self.simulation_passes(iterations) == other.simulation_passes(iterations),
        decreases iterations,
    {
        if iterations > 0 {
            self.lemma_same_simulation(other, (iterations - 1) as nat);
        }
    }

    /// The passes of a frame are settled by the resources, the two counts
    /// and the settings: neither the phase nor the frame counter has a part
    /// in them.
    pub proof fn lemma_same_plan(&self, other: State)
        requires
            self.res() == other.res(),
            self.particle_count() == other.particle_count(),
            self.cell_count() == other.cell_count(),
            self.settings() == other.settings(),
        ensures
            self.frame_plan() == other.frame_plan(),
    {
        self.lemma_same_simulation(other, self.settings().iterations as nat);
    }

    /// Everything but the phase and the frame counter is as in `before`:
    /// the resources, so the shapes with their vertex counts too, the sizes,
    /// the settings, and with them the passes of a frame.
    pub open spec fn unchanged_but_phase(&self, before: State) -> bool {
        &&& self.res() == before.res()
        &&& self.particle_count() == before.particle_count()
        &&& self.cell_count() == before.cell_count()
        &&& self.settings() == before.settings()
        &&& self.wf() == before.wf()
        &&& self.frame_plan() == before.frame_plan()
    }
}

/// The vertex buffers of the pipeline that draws particles.
fn particle_vertex_buffers() -> (layouts: Vec<VertexBufferLayout>)
    ensures
        reads_instances_and_shape(layouts@, RECORD_BYTES as u64, particle_instance_slots(), 2),
{
    let instance: Vec<(u32, VertexFormat)> = vec![
        (0u32, VertexFormat::Float32x3),
        (1u32, VertexFormat::Float32x3),
    ];
    let shape: Vec<(u32, VertexFormat)> = vec![(2u32, VertexFormat::Float32x3)];
    assert(instance@ =~= particle_instance_slots());
    assert(shape@ =~= shape_slots(2));
    vec![
        vertex_buffer_layout(24, VertexStepMode::Instance, instance.as_slice()),
        vertex_buffer_layout(VERTEX_STRIDE, VertexStepMode::Vertex, shape.as_slice()),
    ]
}

/// The vertex buffers of the pipelines that draw a grid.
fn cell_vertex_buffers() -> (layouts: Vec<VertexBufferLayout>)
    ensures
        reads_instances_and_shape(layouts@, CELL_BYTES as u64, cell_instance_slots(), 1),
{
    let instance: Vec<(u32, VertexFormat)> = vec![(0u32, VertexFormat::Float32)];
    let shape: Vec<(u32, VertexFormat)> = vec![(1u32, VertexFormat::Float32x3)];
    assert(instance@ =~= cell_instance_slots());
    assert(shape@ =~= shape_slots(1));
    vec![
        vertex_buffer_layout(4, VertexStepMode::Instance, instance.as_slice()),
        vertex_buffer_layout(VERTEX_STRIDE, VertexStepMode::Vertex, shape.as_slice()),
    ]
}

} // verus!
