use particle_sim::error::ConfigError;
use particle_sim::field::FieldStore;
use particle_sim::frame::{is_isolated, ComputePass, Pass, PassKind, RenderPass};
use particle_sim::limits::{DownlevelCapabilities, Limits, ShaderModel};
use particle_sim::params::ParameterBlock;
use particle_sim::particles::{ParticleRecord, ParticleStore};
use particle_sim::render::SurfaceConfiguration;
use particle_sim::resources::{
    BindGroupEntry, BindGroupLayoutEntry, BufferBindingType, Device, ResourceKind, ShaderStage,
};
use particle_sim::seeding::SENSE_DISTANCE;
use particle_sim::state::{Phase, Settings, ShaderSources, State, PARAMETER_BYTES, STARTUP_RESOURCES};
use particle_sim::vertex::{VertexAttribute, VertexFormat, VertexStepMode};

fn sources() -> ShaderSources {
    ShaderSources {
        compute_particles: "compute".to_string(),
        compute_map: "compute_map".to_string(),
        render_particles: "draw".to_string(),
        render_map: "render_map".to_string(),
        render_indicators: "render_indicators".to_string(),
    }
}

fn particles(count: usize) -> ParticleStore {
    let mut store = ParticleStore::new();
    for i in 0..count {
        store.push(ParticleRecord {
            pos_x: (i as f32 / (4 * count) as f32).to_bits(),
            pos_y: 0,
            sense_distance: SENSE_DISTANCE,
            vel_x: 0,
            vel_y: 0,
            preference: 1.0f32.to_bits(),
        });
    }
    store
}

fn config() -> SurfaceConfiguration {
    SurfaceConfiguration { format: wgpu::TextureFormat::Bgra8Unorm, width: 640, height: 480 }
}

fn start(count: usize, side: u32, settings: Settings) -> (State, Device) {
    let mut device = Device::new();
    let state = State::init(
        &config(),
        &mut device,
        &sources(),
        &ParameterBlock::reference(),
        &particles(count),
        &FieldStore::create(side).unwrap(),
        settings,
    )
    .unwrap();
    (state, device)
}

fn once() -> Settings {
    Settings { iterations: 1, render_particles: false, render_indicators: false }
}

fn storage() -> BufferBindingType {
    BufferBindingType::Storage { read_only: false }
}

fn compute(pass: &Pass) -> &ComputePass {
    match pass {
        Pass::Compute(p) => p,
        Pass::Render(_) => panic!("a render pass where a compute pass was expected"),
    }
}

fn draw(pass: &Pass) -> &RenderPass {
    match pass {
        Pass::Render(p) => p,
        Pass::Compute(_) => panic!("a compute pass where a render pass was expected"),
    }
}

#[test]
fn startup_creates_thirty_one_resources_in_order() {
    let (state, device) = start(100, 10, once());
    assert_eq!(STARTUP_RESOURCES, 31);
    assert_eq!(device.created(), 31);
    let kinds: Vec<ResourceKind> = (0..31).map(|i| device.kind_of(i).unwrap()).collect();
    let mut expected = vec![ResourceKind::ShaderModule; 5];
    expected.extend(vec![ResourceKind::Buffer; 3]);
    expected.extend(vec![ResourceKind::BindGroupLayout; 5]);
    expected.extend(vec![ResourceKind::PipelineLayout; 5]);
    expected.extend(vec![ResourceKind::ComputePipeline; 2]);
    expected.extend(vec![ResourceKind::RenderPipeline; 3]);
    expected.extend(vec![
        ResourceKind::Buffer,
        ResourceKind::BindGroup,
        ResourceKind::Buffer,
        ResourceKind::BindGroup,
        ResourceKind::Buffer,
        ResourceKind::BindGroup,
        ResourceKind::BindGroup,
        ResourceKind::BindGroup,
    ]);
    assert_eq!(kinds, expected);
    let r = state.resources();
    assert_eq!(r.compute_particles_shader.id, 0);
    assert_eq!(r.render_indicator_shader.id, 4);
    assert_eq!(r.constant_data_buffer.id, 5);
    assert_eq!(r.square_vertex_buffer.id, 7);
    assert_eq!(r.binding_map_vertex.id, 12);
    assert_eq!(r.pipeline_layout_render_particles.id, 17);
    assert_eq!(r.compute_pipeline.id, 18);
    assert_eq!(r.compute_map_pipeline.id, 19);
    assert_eq!(r.pipeline_render_indicators.id, 22);
    assert_eq!(r.raw_particle_buffer.id, 23);
    assert_eq!(r.particle_bind_group.id, 24);
    assert_eq!(r.raw_map_buffer.id, 25);
    assert_eq!(r.raw_indicator_buffer.id, 27);
    assert_eq!(r.const_bind_vertex_group.id, 30);
}

#[test]
fn startup_on_a_used_device_numbers_from_where_it_stands() {
    let mut device = Device::new();
    particle_sim::builders::make_shader(&mut device, "earlier");
    particle_sim::builders::make_shader(&mut device, "earlier");
    let state = State::init(
        &config(),
        &mut device,
        &sources(),
        &ParameterBlock::reference(),
        &particles(3),
        &FieldStore::create(2).unwrap(),
        once(),
    )
    .unwrap();
    assert_eq!(device.created(), 33);
    assert_eq!(state.resources().compute_particles_shader.id, 2);
    assert_eq!(state.resources().const_bind_vertex_group.id, 32);
}

#[test]
fn startup_sizes_buffers_and_slots_alike() {
    let (state, _) = start(100, 10, once());
    let r = state.resources();
    assert_eq!(state.num_particles(), 100);
    assert_eq!(state.num_cells(), 100);
    assert_eq!(PARAMETER_BYTES, 48);
    assert_eq!(r.constant_data_buffer.byte_size(), 48);
    assert_eq!(r.triangle_vertex_buffer.byte_size(), 36);
    assert_eq!(r.square_vertex_buffer.byte_size(), 72);
    assert_eq!(r.raw_particle_buffer.byte_size(), 2_400);
    assert_eq!(r.raw_map_buffer.byte_size(), 400);
    assert_eq!(r.raw_indicator_buffer.byte_size(), 400);
    assert!(r.raw_map_buffer.contents.iter().all(|b| *b == 0));
    assert!(r.raw_indicator_buffer.contents.iter().all(|b| *b == 0));
    let slot = |stage, ty, size| {
        vec![BindGroupLayoutEntry {
            binding: 0,
            visibility: stage,
            ty,
            has_dynamic_offset: false,
            min_binding_size: Some(size),
        }]
    };
    assert_eq!(
        r.binding_constants_compute.entries,
        slot(ShaderStage::Compute, BufferBindingType::Uniform, 48)
    );
    assert_eq!(
        r.binding_constants_vertex.entries,
        slot(ShaderStage::Vertex, BufferBindingType::Uniform, 48)
    );
    assert_eq!(r.binding_particles_compute.entries, slot(ShaderStage::Compute, storage(), 2_400));
    assert_eq!(r.binding_map_compute.entries, slot(ShaderStage::Compute, storage(), 400));
    assert_eq!(
        r.binding_map_vertex.entries,
        slot(ShaderStage::Vertex, BufferBindingType::Uniform, 400)
    );
}

#[test]
fn startup_keeps_the_particle_bytes() {
    let store = particles(4);
    let mut expected: Vec<u8> = Vec::new();
    for w in store.words() {
        expected.extend_from_slice(&w.to_ne_bytes());
    }
    let mut device = Device::new();
    let state = State::init(
        &config(),
        &mut device,
        &sources(),
        &ParameterBlock::reference(),
        &store,
        &FieldStore::create(1).unwrap(),
        once(),
    )
    .unwrap();
    assert_eq!(state.resources().raw_particle_buffer.contents, expected);
    let constants = &state.resources().constant_data_buffer.contents;
    let speed = f32::from_ne_bytes([constants[0], constants[1], constants[2], constants[3]]);
    let resolution =
        f32::from_ne_bytes([constants[20], constants[21], constants[22], constants[23]]);
    assert_eq!(speed, 1.0);
    assert_eq!(resolution, 500.0);
}

#[test]
fn startup_links_pipelines_layouts_and_groups() {
    let (state, _) = start(100, 10, once());
    let r = state.resources();
    assert_eq!(r.compute_particles_shader.source, "compute");
    assert_eq!(r.compute_map_shader.source, "compute_map");
    assert_eq!(r.render_particle_shader.source, "draw");
    assert_eq!(r.render_map_shader.source, "render_map");
    assert_eq!(r.render_indicator_shader.source, "render_indicators");
    assert_eq!(
        r.pipeline_layout_compute.bind_group_layouts,
        vec![
            r.binding_constants_compute.id,
            r.binding_particles_compute.id,
            r.binding_map_compute.id,
            r.binding_map_compute.id
        ]
    );
    assert_eq!(
        r.pipeline_layout_compute_map.bind_group_layouts,
        vec![r.binding_constants_compute.id, r.binding_map_compute.id, r.binding_map_compute.id]
    );
    assert_eq!(r.pipeline_layout_render_map.bind_group_layouts, vec![r.binding_constants_vertex.id]);
    assert_eq!(
        r.pipeline_layout_render_indicators.bind_group_layouts,
        vec![r.binding_constants_vertex.id]
    );
    assert_eq!(
        r.pipeline_layout_render_particles.bind_group_layouts,
        vec![r.binding_constants_vertex.id]
    );
    assert_eq!(r.compute_pipeline.layout, r.pipeline_layout_compute.id);
    assert_eq!(r.compute_pipeline.module, r.compute_particles_shader.id);
    assert_eq!(r.compute_pipeline.entry_point, "main");
    assert_eq!(r.compute_map_pipeline.layout, r.pipeline_layout_compute_map.id);
    assert_eq!(r.compute_map_pipeline.module, r.compute_map_shader.id);
    assert_eq!(r.pipeline_render_particles.layout, r.pipeline_layout_render_particles.id);
    assert_eq!(r.pipeline_render_particles.module, r.render_particle_shader.id);
    assert_eq!(r.pipeline_render_map.layout, r.pipeline_layout_render_map.id);
    assert_eq!(r.pipeline_render_map.module, r.render_map_shader.id);
    assert_eq!(r.pipeline_render_indicators.layout, r.pipeline_layout_render_indicators.id);
    assert_eq!(r.pipeline_render_indicators.module, r.render_indicator_shader.id);
    assert_eq!(r.pipeline_render_map.target.format, wgpu::TextureFormat::Bgra8Unorm);
    let sole = |buffer, ty| vec![BindGroupEntry { binding: 0, buffer, ty }];
    assert_eq!(r.particle_bind_group.layout, r.binding_particles_compute.id);
    assert_eq!(r.particle_bind_group.entries, sole(r.raw_particle_buffer.id, storage()));
    assert_eq!(r.map_bind_group.layout, r.binding_map_compute.id);
    assert_eq!(r.map_bind_group.entries, sole(r.raw_map_buffer.id, storage()));
    assert_eq!(r.indicator_bind_group_compute.layout, r.binding_map_compute.id);
    assert_eq!(r.indicator_bind_group_compute.entries, sole(r.raw_indicator_buffer.id, storage()));
    assert_eq!(r.const_bind_compute_group.layout, r.binding_constants_compute.id);
    assert_eq!(
        r.const_bind_compute_group.entries,
        sole(r.constant_data_buffer.id, BufferBindingType::Uniform)
    );
    assert_eq!(r.const_bind_vertex_group.layout, r.binding_constants_vertex.id);
    assert_eq!(
        r.const_bind_vertex_group.entries,
        sole(r.constant_data_buffer.id, BufferBindingType::Uniform)
    );
}

#[test]
fn startup_lays_out_the_vertex_buffers() {
    let (state, _) = start(100, 10, once());
    let r = state.resources();
    let at = |format, offset, shader_location| VertexAttribute { format, offset, shader_location };
    let p = &r.pipeline_render_particles.buffers;
    assert_eq!(p.len(), 2);
    assert_eq!((p[0].array_stride, p[0].step_mode), (24, VertexStepMode::Instance));
    assert_eq!(
        p[0].attributes,
        vec![at(VertexFormat::Float32x3, 0, 0), at(VertexFormat::Float32x3, 12, 1)]
    );
    assert_eq!((p[1].array_stride, p[1].step_mode), (12, VertexStepMode::Vertex));
    assert_eq!(p[1].attributes, vec![at(VertexFormat::Float32x3, 0, 2)]);
    for cells in [&r.pipeline_render_map.buffers, &r.pipeline_render_indicators.buffers] {
        assert_eq!(cells.len(), 2);
        assert_eq!((cells[0].array_stride, cells[0].step_mode), (4, VertexStepMode::Instance));
        assert_eq!(cells[0].attributes, vec![at(VertexFormat::Float32, 0, 0)]);
        assert_eq!((cells[1].array_stride, cells[1].step_mode), (12, VertexStepMode::Vertex));
        assert_eq!(cells[1].attributes, vec![at(VertexFormat::Float32x3, 0, 1)]);
    }
}

#[test]
fn one_frame_of_hundred_particles_on_a_field_of_ten() {
    let (mut state, _) = start(100, 10, once());
    assert_eq!(state.current_phase(), Phase::Idle);
    assert_eq!(state.frame_num(), 0);
    let plan = state.render();
    assert_eq!(state.frame_num(), 1);
    assert_eq!(state.current_phase(), Phase::Idle);
    assert_eq!(plan.len(), 3);
    let r = state.resources();
    let map = compute(&plan[0]);
    assert_eq!(map.kind, PassKind::MapUpdate);
    assert_eq!(map.pipeline, r.compute_map_pipeline.id);
    assert_eq!(
        map.bind_groups,
        vec![r.const_bind_compute_group.id, r.map_bind_group.id, r.indicator_bind_group_compute.id]
    );
    assert_eq!(map.workgroups, 2);
    let move_particles = compute(&plan[1]);
    assert_eq!(move_particles.kind, PassKind::ParticleUpdate);
    assert_eq!(move_particles.pipeline, r.compute_pipeline.id);
    assert_eq!(
        move_particles.bind_groups,
        vec![
            r.const_bind_compute_group.id,
            r.particle_bind_group.id,
            r.map_bind_group.id,
            r.indicator_bind_group_compute.id
        ]
    );
    assert_eq!(move_particles.workgroups, 2);
    assert_eq!(
        *draw(&plan[2]),
        RenderPass {
            kind: PassKind::RenderMap,
            pipeline: r.pipeline_render_map.id,
            bind_group: r.const_bind_vertex_group.id,
            instance_buffer: r.raw_map_buffer.id,
            shape_buffer: r.square_vertex_buffer.id,
            vertices: 6,
            instances: 100,
        }
    );
}

#[test]
fn frame_counter_grows_by_one_whatever_the_iterations() {
    for iterations in [0u32, 1, 2, 7] {
        let (mut state, _) =
            start(10, 4, Settings { iterations, render_particles: false, render_indicators: false });
        for frame in 1..=3u32 {
            let plan = state.render();
            assert_eq!(plan.len(), 2 * iterations as usize + 1);
            assert_eq!(state.frame_num(), frame);
        }
    }
}

#[test]
fn compute_passes_alternate_and_come_first() {
    let (state, _) =
        start(10, 4, Settings { iterations: 3, render_particles: true, render_indicators: true });
    let plan = state.plan_frame();
    let kinds: Vec<PassKind> = plan
        .iter()
        .map(|p| match p {
            Pass::Compute(c) => c.kind,
            Pass::Render(r) => r.kind,
        })
        .collect();
    assert_eq!(
        kinds,
        vec![
            PassKind::MapUpdate,
            PassKind::ParticleUpdate,
            PassKind::MapUpdate,
            PassKind::ParticleUpdate,
            PassKind::MapUpdate,
            PassKind::ParticleUpdate,
            PassKind::RenderMap,
            PassKind::RenderParticles,
            PassKind::RenderIndicators,
        ]
    );
    assert_eq!(state.frame_num(), 0);
}

#[test]
fn optional_draws_follow_the_settings() {
    let (state, _) =
        start(10, 4, Settings { iterations: 1, render_particles: true, render_indicators: false });
    let plan = state.plan_frame();
    let r = state.resources();
    assert_eq!(plan.len(), 4);
    assert_eq!(
        *draw(&plan[3]),
        RenderPass {
            kind: PassKind::RenderParticles,
            pipeline: r.pipeline_render_particles.id,
            bind_group: r.const_bind_vertex_group.id,
            instance_buffer: r.raw_particle_buffer.id,
            shape_buffer: r.triangle_vertex_buffer.id,
            vertices: 3,
            instances: 10,
        }
    );
    let (state, _) =
        start(10, 4, Settings { iterations: 1, render_particles: false, render_indicators: true });
    let plan = state.plan_frame();
    let r = state.resources();
    assert_eq!(plan.len(), 4);
    assert_eq!(
        *draw(&plan[3]),
        RenderPass {
            kind: PassKind::RenderIndicators,
            pipeline: r.pipeline_render_indicators.id,
            bind_group: r.const_bind_vertex_group.id,
            instance_buffer: r.raw_indicator_buffer.id,
            shape_buffer: r.square_vertex_buffer.id,
            vertices: 6,
            instances: 16,
        }
    );
}

#[test]
fn draws_do_not_change_the_compute_passes() {
    let plain = start(50, 6, Settings { iterations: 2, render_particles: false, render_indicators: false })
        .0
        .plan_frame();
    let full = start(50, 6, Settings { iterations: 2, render_particles: true, render_indicators: true })
        .0
        .plan_frame();
    assert_eq!(plain.len(), 5);
    assert_eq!(full.len(), 7);
    for i in 0..4 {
        let (a, b) = (compute(&plain[i]), compute(&full[i]));
        assert_eq!(a.kind, b.kind);
        assert_eq!(a.pipeline, b.pipeline);
        assert_eq!(a.bind_groups, b.bind_groups);
        assert_eq!(a.workgroups, b.workgroups);
    }
}

#[test]
fn a_frame_can_be_begun_and_abandoned() {
    let (mut state, _) = start(10, 4, once());
    let plan = state.begin_frame();
    assert_eq!(plan.len(), 3);
    assert_eq!(state.current_phase(), Phase::FrameInProgress);
    assert_eq!(state.frame_num(), 0);
    state.abandon_frame();
    assert_eq!(state.current_phase(), Phase::Idle);
    assert_eq!(state.frame_num(), 0);
    state.begin_frame();
    state.end_frame();
    assert_eq!(state.current_phase(), Phase::Idle);
    assert_eq!(state.frame_num(), 1);
}

#[test]
fn update_and_resize_change_nothing() {
    let (mut state, _) = start(10, 4, once());
    state.render();
    state.update();
    state.resize(&SurfaceConfiguration {
        format: wgpu::TextureFormat::Rgba8Unorm,
        width: 1,
        height: 1,
    });
    assert_eq!(state.frame_num(), 1);
    assert_eq!(state.current_phase(), Phase::Idle);
    assert_eq!(state.current_settings(), once());
    assert_eq!(state.resources().pipeline_render_map.target.format, wgpu::TextureFormat::Bgra8Unorm);
}

#[test]
fn shapes_keep_their_size_over_frames() {
    let (mut state, _) = start(10, 4, once());
    let triangle = state.resources().triangle_vertex_buffer.contents.clone();
    let square = state.resources().square_vertex_buffer.contents.clone();
    assert_eq!(triangle.len(), 9 * 4);
    assert_eq!(square.len(), 18 * 4);
    for _ in 0..5 {
        state.render();
    }
    assert_eq!(state.resources().triangle_vertex_buffer.contents, triangle);
    assert_eq!(state.resources().square_vertex_buffer.contents, square);
    assert_eq!(state.resources().triangle_vertex_buffer.byte_size() / 12, 3);
    assert_eq!(state.resources().square_vertex_buffer.byte_size() / 12, 6);
}

#[test]
fn map_is_unchanged_by_planning_frames() {
    let (mut state, _) = start(10, 4, once());
    let map = state.resources().raw_map_buffer.contents.clone();
    state.render();
    state.render();
    assert_eq!(state.resources().raw_map_buffer.contents, map);
    assert_ne!(state.resources().raw_map_buffer.id, state.resources().raw_indicator_buffer.id);
}

#[test]
fn no_dispatch_binds_a_buffer_twice() {
    let (state, _) = start(100, 10, once());
    let r = state.resources();
    let mut map_stage = r.const_bind_compute_group.entries.clone();
    map_stage.extend(r.map_bind_group.entries.clone());
    map_stage.extend(r.indicator_bind_group_compute.entries.clone());
    assert!(is_isolated(&map_stage));
    let mut particle_stage = r.const_bind_compute_group.entries.clone();
    particle_stage.extend(r.particle_bind_group.entries.clone());
    particle_stage.extend(r.map_bind_group.entries.clone());
    particle_stage.extend(r.indicator_bind_group_compute.entries.clone());
    assert!(is_isolated(&particle_stage));
}

#[test]
fn isolation_rule_rejects_a_buffer_read_and_written() {
    let write = |buffer| BindGroupEntry { binding: 0, buffer, ty: storage() };
    let read = |buffer| BindGroupEntry {
        binding: 0,
        buffer,
        ty: BufferBindingType::Storage { read_only: true },
    };
    let uniform = |buffer| BindGroupEntry { binding: 0, buffer, ty: BufferBindingType::Uniform };
    assert!(is_isolated(&vec![]));
    assert!(is_isolated(&vec![write(1)]));
    assert!(is_isolated(&vec![read(1), write(2)]));
    assert!(is_isolated(&vec![read(1), read(1), uniform(1)]));
    assert!(!is_isolated(&vec![read(1), write(1)]));
    assert!(!is_isolated(&vec![write(1), read(1)]));
    assert!(!is_isolated(&vec![write(1), write(1)]));
    assert!(!is_isolated(&vec![uniform(3), write(2), read(4), write(3)]));
    assert!(is_isolated(&vec![uniform(3), write(2), read(4), write(5)]));
}

#[test]
fn pass_labels_name_the_debug_groups() {
    assert_eq!(PassKind::MapUpdate.label(), "compute map changes");
    assert_eq!(PassKind::ParticleUpdate.label(), "compute boid movement");
    assert_eq!(PassKind::RenderMap.label(), "render map");
    assert_eq!(PassKind::RenderParticles.label(), "render boids");
    assert_eq!(PassKind::RenderIndicators.label(), "render indicators");
}

#[test]
fn required_limits_are_the_downlevel_defaults() {
    let all = wgpu::Limits::downlevel_defaults();
    let limits = State::required_limits();
    assert_eq!(
        limits,
        Limits {
            max_bind_groups: 4,
            max_storage_buffers_per_shader_stage: 4,
            max_uniform_buffers_per_shader_stage: 12,
            max_uniform_buffer_binding_size: 16_384,
            max_storage_buffer_binding_size: 134_217_728,
            max_vertex_buffers: 8,
            max_vertex_attributes: 16,
            max_vertex_buffer_array_stride: 2_048,
            max_compute_invocations_per_workgroup: 256,
            max_compute_workgroup_size_x: 256,
            max_compute_workgroups_per_dimension: 65_535,
        }
    );
    assert_eq!(limits.max_bind_groups, all.max_bind_groups);
    assert_eq!(limits.max_storage_buffer_binding_size, all.max_storage_buffer_binding_size);
    assert_eq!(
        limits.max_compute_workgroups_per_dimension,
        all.max_compute_workgroups_per_dimension
    );
}

#[test]
fn required_capabilities_ask_for_compute_shaders() {
    let capabilities = State::required_downlevel_capabilities();
    assert_eq!(capabilities, DownlevelCapabilities { flags: 1, shader_model: ShaderModel::Sm5 });
    assert_eq!(capabilities.flags, wgpu::DownlevelFlags::COMPUTE_SHADERS.bits());
}

#[test]
fn simulation_is_held_against_limits() {
    let (state, _) = start(100, 10, once());
    let limits = State::required_limits();
    assert!(state.fits_limits(&limits));
    assert!(!state.fits_limits(&Limits { max_bind_groups: 3, ..limits }));
    assert!(!state.fits_limits(&Limits { max_storage_buffers_per_shader_stage: 2, ..limits }));
    assert!(!state.fits_limits(&Limits { max_storage_buffer_binding_size: 2_399, ..limits }));
    assert!(state.fits_limits(&Limits { max_storage_buffer_binding_size: 2_400, ..limits }));
    assert!(!state.fits_limits(&Limits { max_uniform_buffer_binding_size: 47, ..limits }));
    assert!(!state.fits_limits(&Limits { max_compute_workgroups_per_dimension: 1, ..limits }));
    assert!(state.fits_limits(&Limits { max_compute_workgroups_per_dimension: 2, ..limits }));
    assert!(!state.fits_limits(&Limits { max_compute_invocations_per_workgroup: 63, ..limits }));
    assert!(!state.fits_limits(&Limits { max_vertex_buffer_array_stride: 23, ..limits }));
    assert!(!state.fits_limits(&Limits { max_vertex_buffers: 1, ..limits }));
}

#[test]
fn field_too_large_is_reported_before_startup() {
    assert_eq!(FieldStore::create(40_000).err(), Some(ConfigError::FieldTooLarge));
}
