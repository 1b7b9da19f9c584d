use particle_sim::builders::{make_binding_layout, make_pipeline_layout, make_shader};
use particle_sim::render::{
    make_render_pipeline, ColorWrites, CullMode, FrontFace, MultisampleState, PrimitiveState,
    PrimitiveTopology, SurfaceConfiguration,
};
use particle_sim::resources::{BufferBindingType, Device, ResourceKind, ShaderStage};
use particle_sim::vertex::{
    vertex_attributes, vertex_buffer_layout, VertexAttribute, VertexFormat, VertexStepMode,
};

#[test]
fn vertex_formats_have_the_sizes_of_the_device_formats() {
    assert_eq!(VertexFormat::Float32.byte_size(), wgpu::VertexFormat::Float32.size());
    assert_eq!(VertexFormat::Float32x2.byte_size(), wgpu::VertexFormat::Float32x2.size());
    assert_eq!(VertexFormat::Float32x3.byte_size(), wgpu::VertexFormat::Float32x3.size());
    assert_eq!(VertexFormat::Float32x4.byte_size(), wgpu::VertexFormat::Float32x4.size());
    assert_eq!(VertexFormat::Float32x3.byte_size(), 12);
}

#[test]
fn attributes_are_packed_one_after_another() {
    let attributes = vertex_attributes(&[
        (0, VertexFormat::Float32x3),
        (1, VertexFormat::Float32x3),
        (5, VertexFormat::Float32),
        (2, VertexFormat::Float32x4),
        (3, VertexFormat::Float32x2),
    ]);
    assert_eq!(
        attributes,
        vec![
            VertexAttribute { format: VertexFormat::Float32x3, offset: 0, shader_location: 0 },
            VertexAttribute { format: VertexFormat::Float32x3, offset: 12, shader_location: 1 },
            VertexAttribute { format: VertexFormat::Float32, offset: 24, shader_location: 5 },
            VertexAttribute { format: VertexFormat::Float32x4, offset: 28, shader_location: 2 },
            VertexAttribute { format: VertexFormat::Float32x2, offset: 44, shader_location: 3 },
        ]
    );
    assert!(vertex_attributes(&[]).is_empty());
}

#[test]
fn vertex_buffer_layout_keeps_stride_and_step() {
    let layout = vertex_buffer_layout(24, VertexStepMode::Instance, &[(2, VertexFormat::Float32x3)]);
    assert_eq!(layout.array_stride, 24);
    assert_eq!(layout.step_mode, VertexStepMode::Instance);
    assert_eq!(
        layout.attributes,
        vec![VertexAttribute { format: VertexFormat::Float32x3, offset: 0, shader_location: 2 }]
    );
}

#[test]
fn render_pipeline_draws_triangle_lists_to_the_surface_format() {
    let mut device = Device::new();
    let shader = make_shader(&mut device, "source");
    let group =
        make_binding_layout(&mut device, ShaderStage::Vertex, BufferBindingType::Uniform, &[48]);
    let layout = make_pipeline_layout(&mut device, &[&group]);
    let config = SurfaceConfiguration {
        format: wgpu::TextureFormat::Bgra8UnormSrgb,
        width: 800,
        height: 600,
    };
    let buffers = vec![
        vertex_buffer_layout(4, VertexStepMode::Instance, &[(0, VertexFormat::Float32)]),
        vertex_buffer_layout(12, VertexStepMode::Vertex, &[(1, VertexFormat::Float32x3)]),
    ];
    let pipeline = make_render_pipeline(&mut device, &config, &layout, &shader, buffers);
    assert_eq!(pipeline.id, 3);
    assert_eq!(device.kind_of(3), Some(ResourceKind::RenderPipeline));
    assert_eq!(pipeline.layout, layout.id);
    assert_eq!(pipeline.module, shader.id);
    assert_eq!(pipeline.vertex_entry, "main_vs");
    assert_eq!(pipeline.fragment_entry, "main_fs");
    assert_eq!(pipeline.buffers.len(), 2);
    assert_eq!(pipeline.buffers[0].array_stride, 4);
    assert_eq!(pipeline.buffers[1].array_stride, 12);
    assert_eq!(pipeline.target.format, wgpu::TextureFormat::Bgra8UnormSrgb);
    assert!(!pipeline.target.blend);
    assert_eq!(
        pipeline.target.write_mask,
        ColorWrites { red: true, green: true, blue: true, alpha: true }
    );
    assert_eq!(
        pipeline.primitive,
        PrimitiveState {
            topology: PrimitiveTopology::TriangleList,
            front_face: FrontFace::Ccw,
            cull_mode: CullMode::NoCulling,
        }
    );
    assert_eq!(
        pipeline.multisample,
        MultisampleState { count: 1, mask: u64::MAX, alpha_to_coverage_enabled: false }
    );
}

#[test]
fn render_pipeline_defaults_are_those_of_the_device_library() {
    let primitive = wgpu::PrimitiveState::default();
    assert_eq!(primitive.topology, wgpu::PrimitiveTopology::TriangleList);
    assert_eq!(primitive.front_face, wgpu::FrontFace::Ccw);
    assert_eq!(primitive.cull_mode, None);
    let multisample = wgpu::MultisampleState::default();
    assert_eq!(multisample.count, 1);
    assert_eq!(multisample.mask, u64::MAX);
    assert!(!multisample.alpha_to_coverage_enabled);
    let target: wgpu::ColorTargetState = wgpu::TextureFormat::Rgba8Unorm.into();
    assert_eq!(target.blend, None);
    assert_eq!(target.write_mask, wgpu::ColorWrites::ALL);
}
