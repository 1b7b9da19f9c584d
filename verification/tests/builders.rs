use particle_sim::builders::{
    make_bind_group, make_binding_layout, make_buffer, make_compute_pipeline,
    make_pipeline_layout, make_shader,
};
use particle_sim::error::ConfigError;
use particle_sim::resources::{
    BindGroupEntry, BindGroupLayout, BindGroupLayoutEntry, Buffer, BufferBindingType,
    BufferUsages, Device, ResourceKind, ShaderStage,
};

fn storage() -> BufferBindingType {
    BufferBindingType::Storage { read_only: false }
}

#[test]
fn device_numbers_resources_in_order_of_creation() {
    let mut device = Device::new();
    assert_eq!(device.created(), 0);
    let a = make_buffer(&mut device, &vec![1, 2, 3]);
    let s = make_shader(&mut device, "fn main() {}");
    let b = make_buffer(&mut device, &vec![]);
    assert_eq!((a.id, s.id, b.id), (0, 1, 2));
    assert_eq!(device.created(), 3);
    assert_eq!(device.kind_of(0), Some(ResourceKind::Buffer));
    assert_eq!(device.kind_of(1), Some(ResourceKind::ShaderModule));
    assert_eq!(device.kind_of(2), Some(ResourceKind::Buffer));
    assert_eq!(device.kind_of(3), None);
}

#[test]
fn buffer_holds_four_bytes_for_each_word() {
    let mut device = Device::new();
    let words: Vec<u32> = vec![0x3f80_0000, 0x0000_0001, 0xffff_ffff];
    let buffer = make_buffer(&mut device, &words);
    assert_eq!(buffer.byte_size(), 12);
    assert_eq!(buffer.contents.len(), 12);
    let mut expected: Vec<u8> = Vec::new();
    for w in &words {
        expected.extend_from_slice(&w.to_ne_bytes());
    }
    assert_eq!(buffer.contents, expected);
    assert_eq!(
        buffer.usage,
        BufferUsages { vertex: true, copy_dst: true, storage: true, uniform: true }
    );
}

#[test]
fn buffer_bytes_carry_float_values() {
    let mut device = Device::new();
    let words: Vec<u32> = vec![1.0f32.to_bits(), (-0.5f32).to_bits()];
    let buffer = make_buffer(&mut device, &words);
    let first = f32::from_ne_bytes([
        buffer.contents[0],
        buffer.contents[1],
        buffer.contents[2],
        buffer.contents[3],
    ]);
    let second = f32::from_ne_bytes([
        buffer.contents[4],
        buffer.contents[5],
        buffer.contents[6],
        buffer.contents[7],
    ]);
    assert_eq!(first, 1.0);
    assert_eq!(second, -0.5);
}

#[test]
fn buffer_of_zero_words_is_all_zero_bytes() {
    let mut device = Device::new();
    let buffer = make_buffer(&mut device, &vec![0u32; 100]);
    assert_eq!(buffer.byte_size(), 400);
    assert!(buffer.contents.iter().all(|b| *b == 0));
}

#[test]
fn empty_buffer_has_no_bytes() {
    let mut device = Device::new();
    let buffer = make_buffer(&mut device, &Vec::new());
    assert_eq!(buffer.byte_size(), 0);
}

#[test]
fn shader_keeps_its_source() {
    let mut device = Device::new();
    let shader = make_shader(&mut device, "[[stage(compute)]] fn main() {}");
    assert_eq!(shader.id, 0);
    assert_eq!(shader.source, "[[stage(compute)]] fn main() {}");
    assert_eq!(device.kind_of(0), Some(ResourceKind::ShaderModule));
}

#[test]
fn binding_layout_has_one_slot_per_size() {
    let mut device = Device::new();
    let layout = make_binding_layout(&mut device, ShaderStage::Compute, storage(), &[48, 0, 72]);
    assert_eq!(layout.id, 0);
    assert_eq!(
        layout.entries,
        vec![
            BindGroupLayoutEntry {
                binding: 0,
                visibility: ShaderStage::Compute,
                ty: storage(),
                has_dynamic_offset: false,
                min_binding_size: Some(48),
            },
            BindGroupLayoutEntry {
                binding: 1,
                visibility: ShaderStage::Compute,
                ty: storage(),
                has_dynamic_offset: false,
                min_binding_size: None,
            },
            BindGroupLayoutEntry {
                binding: 2,
                visibility: ShaderStage::Compute,
                ty: storage(),
                has_dynamic_offset: false,
                min_binding_size: Some(72),
            },
        ]
    );
    assert_eq!(device.kind_of(0), Some(ResourceKind::BindGroupLayout));
}

#[test]
fn binding_layout_without_sizes_has_no_slots() {
    let mut device = Device::new();
    let layout =
        make_binding_layout(&mut device, ShaderStage::Vertex, BufferBindingType::Uniform, &[]);
    assert!(layout.entries.is_empty());
}

#[test]
fn binding_layout_keeps_the_largest_size() {
    let mut device = Device::new();
    let layout = make_binding_layout(
        &mut device,
        ShaderStage::Vertex,
        BufferBindingType::Uniform,
        &[u32::MAX],
    );
    assert_eq!(layout.entries[0].min_binding_size, Some(4_294_967_295));
    assert_eq!(layout.entries[0].visibility, ShaderStage::Vertex);
    assert_eq!(layout.entries[0].ty, BufferBindingType::Uniform);
}

#[test]
fn pipeline_layout_lists_its_groups() {
    let mut device = Device::new();
    let a = make_binding_layout(&mut device, ShaderStage::Compute, storage(), &[4]);
    let b = make_binding_layout(&mut device, ShaderStage::Compute, storage(), &[8]);
    let layout = make_pipeline_layout(&mut device, &[&a, &b, &b]);
    assert_eq!(layout.id, 2);
    assert_eq!(layout.bind_group_layouts, vec![0, 1, 1]);
    let none = make_pipeline_layout(&mut device, &[]);
    assert_eq!(none.id, 3);
    assert!(none.bind_group_layouts.is_empty());
}

#[test]
fn compute_pipeline_enters_at_main() {
    let mut device = Device::new();
    let shader = make_shader(&mut device, "source");
    let group = make_binding_layout(&mut device, ShaderStage::Compute, storage(), &[4]);
    let layout = make_pipeline_layout(&mut device, &[&group]);
    let pipeline = make_compute_pipeline(&mut device, &layout, &shader);
    assert_eq!(pipeline.id, 3);
    assert_eq!(pipeline.layout, layout.id);
    assert_eq!(pipeline.module, shader.id);
    assert_eq!(pipeline.entry_point, "main");
    assert_eq!(device.kind_of(3), Some(ResourceKind::ComputePipeline));
}

#[test]
fn bind_group_binds_buffers_in_order() {
    let mut device = Device::new();
    let a = make_buffer(&mut device, &vec![0; 12]);
    let b = make_buffer(&mut device, &vec![0; 3]);
    let layout = make_binding_layout(&mut device, ShaderStage::Compute, storage(), &[48, 12]);
    let group = make_bind_group(&mut device, &layout, &[&a, &b]).unwrap();
    assert_eq!(group.id, 3);
    assert_eq!(group.layout, layout.id);
    assert_eq!(
        group.entries,
        vec![
            BindGroupEntry { binding: 0, buffer: a.id, ty: storage() },
            BindGroupEntry { binding: 1, buffer: b.id, ty: storage() },
        ]
    );
    assert_eq!(device.created(), 4);
    assert_eq!(device.kind_of(3), Some(ResourceKind::BindGroup));
}

#[test]
fn bind_group_accepts_a_larger_buffer() {
    let mut device = Device::new();
    let a = make_buffer(&mut device, &vec![0; 13]);
    let layout =
        make_binding_layout(&mut device, ShaderStage::Vertex, BufferBindingType::Uniform, &[48]);
    let group = make_bind_group(&mut device, &layout, &[&a]).unwrap();
    assert_eq!(
        group.entries,
        vec![BindGroupEntry { binding: 0, buffer: 0, ty: BufferBindingType::Uniform }]
    );
}

#[test]
fn bind_group_without_minimum_accepts_an_empty_buffer() {
    let mut device = Device::new();
    let a = make_buffer(&mut device, &Vec::new());
    let layout = make_binding_layout(&mut device, ShaderStage::Compute, storage(), &[0]);
    assert!(make_bind_group(&mut device, &layout, &[&a]).is_ok());
}

#[test]
fn bind_group_rejects_a_wrong_number_of_buffers() {
    let mut device = Device::new();
    let a = make_buffer(&mut device, &vec![0; 12]);
    let layout = make_binding_layout(&mut device, ShaderStage::Compute, storage(), &[48, 12]);
    let before = device.created();
    assert_eq!(
        make_bind_group(&mut device, &layout, &[&a]).err(),
        Some(ConfigError::BindingCountMismatch { expected: 2, found: 1 })
    );
    assert_eq!(
        make_bind_group(&mut device, &layout, &[&a, &a, &a]).err(),
        Some(ConfigError::BindingCountMismatch { expected: 2, found: 3 })
    );
    assert_eq!(device.created(), before);
}

#[test]
fn bind_group_rejects_a_buffer_that_is_too_small() {
    let mut device = Device::new();
    let a = make_buffer(&mut device, &vec![0; 12]);
    let b = make_buffer(&mut device, &vec![0; 2]);
    let layout = make_binding_layout(&mut device, ShaderStage::Compute, storage(), &[48, 12]);
    let before = device.created();
    assert_eq!(
        make_bind_group(&mut device, &layout, &[&a, &b]).err(),
        Some(ConfigError::BindingTooSmall { binding: 1, required: 12, actual: 8 })
    );
    assert_eq!(device.created(), before);
}

#[test]
fn bind_group_reports_the_first_fault() {
    let mut device = Device::new();
    let small = make_buffer(&mut device, &vec![0; 1]);
    let layout = make_binding_layout(&mut device, ShaderStage::Compute, storage(), &[8, 16]);
    assert_eq!(
        make_bind_group(&mut device, &layout, &[&small, &small]).err(),
        Some(ConfigError::BindingTooSmall { binding: 0, required: 8, actual: 4 })
    );
}

#[test]
fn bind_group_rejects_a_buffer_of_the_wrong_kind() {
    let mut device = Device::new();
    let made = make_buffer(&mut device, &vec![0; 12]);
    let vertex_only = Buffer {
        id: made.id,
        contents: made.contents,
        usage: BufferUsages { vertex: true, copy_dst: false, storage: false, uniform: true },
    };
    let storage_layout = make_binding_layout(&mut device, ShaderStage::Compute, storage(), &[48]);
    assert_eq!(
        make_bind_group(&mut device, &storage_layout, &[&vertex_only]).err(),
        Some(ConfigError::BindingKindMismatch { binding: 0 })
    );
    let uniform_layout =
        make_binding_layout(&mut device, ShaderStage::Vertex, BufferBindingType::Uniform, &[48]);
    assert!(make_bind_group(&mut device, &uniform_layout, &[&vertex_only]).is_ok());
    let read_only = make_binding_layout(
        &mut device,
        ShaderStage::Compute,
        BufferBindingType::Storage { read_only: true },
        &[48],
    );
    assert_eq!(
        make_bind_group(&mut device, &read_only, &[&vertex_only]).err(),
        Some(ConfigError::BindingKindMismatch { binding: 0 })
    );
}

#[test]
fn kind_fault_comes_before_size_fault() {
    let mut device = Device::new();
    let made = make_buffer(&mut device, &vec![0; 1]);
    let plain = Buffer {
        id: made.id,
        contents: made.contents,
        usage: BufferUsages { vertex: false, copy_dst: false, storage: false, uniform: false },
    };
    let layout = make_binding_layout(&mut device, ShaderStage::Compute, storage(), &[48]);
    assert_eq!(
        make_bind_group(&mut device, &layout, &[&plain]).err(),
        Some(ConfigError::BindingKindMismatch { binding: 0 })
    );
}

#[test]
fn writable_is_storage_that_is_not_read_only() {
    assert!(storage().is_writable());
    assert!(!BufferBindingType::Storage { read_only: true }.is_writable());
    assert!(!BufferBindingType::Uniform.is_writable());
}

#[test]
fn bind_group_numbers_buffers_by_position() {
    let mut device = Device::new();
    let a = make_buffer(&mut device, &vec![0; 4]);
    let b = make_buffer(&mut device, &vec![0; 4]);
    let slot = |binding| BindGroupLayoutEntry {
        binding,
        visibility: ShaderStage::Compute,
        ty: storage(),
        has_dynamic_offset: false,
        min_binding_size: Some(16),
    };
    let layout = BindGroupLayout { id: 7, entries: vec![slot(5), slot(9)] };
    let group = make_bind_group(&mut device, &layout, &[&a, &b]).unwrap();
    assert_eq!(group.layout, 7);
    assert_eq!(
        group.entries,
        vec![
            BindGroupEntry { binding: 0, buffer: a.id, ty: storage() },
            BindGroupEntry { binding: 1, buffer: b.id, ty: storage() },
        ]
    );
    let small = make_buffer(&mut device, &vec![0; 1]);
    assert_eq!(
        make_bind_group(&mut device, &layout, &[&a, &small]).err(),
        Some(ConfigError::BindingTooSmall { binding: 1, required: 16, actual: 4 })
    );
}

#[test]
fn buffer_bytes_are_the_words_in_one_byte_order() {
    let mut device = Device::new();
    let words: Vec<u32> = vec![0x0403_0201, 0x0807_0605, 0xdead_beef];
    let buffer = make_buffer(&mut device, &words);
    let low_first: Vec<u8> = vec![1, 2, 3, 4, 5, 6, 7, 8, 0xef, 0xbe, 0xad, 0xde];
    let high_first: Vec<u8> = vec![4, 3, 2, 1, 8, 7, 6, 5, 0xde, 0xad, 0xbe, 0xef];
    assert!(buffer.contents == low_first || buffer.contents == high_first);
    assert_eq!(buffer.contents == low_first, 1u32.to_ne_bytes() == [1, 0, 0, 0]);
}
