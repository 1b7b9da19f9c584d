//! What the simulation asks of its device, and whether a configuration
//! stays within what a device grants.

use vstd::prelude::*;
use crate::dispatch::{workgroups_for, GROUP_SIZE};
use crate::field::CELL_BYTES;
use crate::particles::RECORD_BYTES;
use crate::state::{State, PARAMETER_BYTES};

verus! {

/// The limits of a device that bear on the simulation.
#[derive(Clone, Copy, Debug, PartialEq, Eq, Structural)]
pub struct Limits {
    pub max_bind_groups: u32,
    pub max_storage_buffers_per_shader_stage: u32,
    pub max_uniform_buffers_per_shader_stage: u32,
    pub max_uniform_buffer_binding_size: u32,
    pub max_storage_buffer_binding_size: u32,
    pub max_vertex_buffers: u32,
    pub max_vertex_attributes: u32,
    pub max_vertex_buffer_array_stride: u32,
    pub max_compute_invocations_per_workgroup: u32,
    pub max_compute_workgroup_size_x: u32,
    pub max_compute_workgroups_per_dimension: u32,
}

/// The collections of shader features that a device can offer.
#[derive(Clone, Copy, Debug, PartialEq, Eq, Structural)]
pub enum ShaderModel {
    Sm2,
    Sm4,
    Sm5,
}

/// What the simulation needs of a device that offers less than the full
/// standard.
#[derive(Clone, Copy, Debug, PartialEq, Eq, Structural)]
pub struct DownlevelCapabilities {
    /// The flags asked for, as bits.
    pub flags: u32,
    pub shader_model: ShaderModel,
}

/// The limits that `wgpu` guarantees on every downlevel device.
pub open spec fn downlevel_limits() -> Limits {
    Limits {
        max_bind_groups: 4,
        max_storage_buffers_per_shader_stage: 4,
        max_uniform_buffers_per_shader_stage: 12,
        max_uniform_buffer_binding_size: 16384,
        max_storage_buffer_binding_size: 134217728,
        max_vertex_buffers: 8,
        max_vertex_attributes: 16,
        max_vertex_buffer_array_stride: 2048,
        max_compute_invocations_per_workgroup: 256,
        max_compute_workgroup_size_x: 256,
        max_compute_workgroups_per_dimension: 65535,
    }
}

/// The bit of the flag for compute shaders.
pub open spec fn compute_shaders_bit() -> u32 {
    1
}

/// Calls `wgpu::Limits::downlevel_defaults` and keeps the limits that bear
/// on the simulation. The function returns a constant: 4 bind groups, 4
/// storage and 12 uniform buffers a stage, uniform bindings of 16 KiB and
/// storage bindings of 128 MiB, 8 vertex buffers with 16 attributes and a
/// stride of 2048 bytes, workgroups of 256 invocations, 256 of them along x,
/// and 65535 workgroups a dimension.
#[verifier::external_body]
fn downlevel_default_limits() -> (limits: Limits)
    ensures
        limits == downlevel_limits(),
{
    let all = wgpu::Limits::downlevel_defaults();
    Limits {
        max_bind_groups: all.max_bind_groups,
        max_storage_buffers_per_shader_stage: all.max_storage_buffers_per_shader_stage,
        max_uniform_buffers_per_shader_stage: all.max_uniform_buffers_per_shader_stage,
        max_uniform_buffer_binding_size: all.max_uniform_buffer_binding_size,
        max_storage_buffer_binding_size: all.max_storage_buffer_binding_size,
        max_vertex_buffers: all.max_vertex_buffers,
        max_vertex_attributes: all.max_vertex_attributes,
        max_vertex_buffer_array_stride: all.max_vertex_buffer_array_stride,
        max_compute_invocations_per_workgroup: all.max_compute_invocations_per_workgroup,
        max_compute_workgroup_size_x: all.max_compute_workgroup_size_x,
        max_compute_workgroups_per_dimension: all.max_compute_workgroups_per_dimension,
    }
}

/// Reads the bits of `wgpu::DownlevelFlags::COMPUTE_SHADERS`, which is the
/// lowest bit.
#[verifier::external_body]
fn compute_shaders_flag() -> (bits: u32)
    ensures
        bits == compute_shaders_bit(),
{
    wgpu::DownlevelFlags::COMPUTE_SHADERS.bits()
}

/// Reads the shader model of `wgpu::DownlevelCapabilities::default`, which
/// is model 5.
#[verifier::external_body]
fn default_shader_model() -> (model: ShaderModel)
    ensures
        model == ShaderModel::Sm5,
{
    match wgpu::DownlevelCapabilities::default().shader_model {
        wgpu::ShaderModel::Sm2 => ShaderModel::Sm2,
        wgpu::ShaderModel::Sm4 => ShaderModel::Sm4,
        wgpu::ShaderModel::Sm5 => ShaderModel::Sm5,
    }
}

/// Whether a simulation of `particles` particles and `cells` cells a grid
/// stays within `limits`: its pipelines take no more bind groups, storage
/// buffers, uniform buffers, vertex buffers and attributes than a device
/// grants, its bindings and strides are not larger, a workgroup has no more
/// invocations, and neither stage needs more workgroups.
pub open spec fn within(limits: Limits, particles: nat, cells: nat) -> bool {
    &&& 4 <= limits.max_bind_groups
    &&& 3 <= limits.max_storage_buffers_per_shader_stage
    &&& 1 <= limits.max_uniform_buffers_per_shader_stage
    &&& 2 <= limits.max_vertex_buffers
    &&& 3 <= limits.max_vertex_attributes
    &&& RECORD_BYTES <= limits.max_vertex_buffer_array_stride
    &&& PARAMETER_BYTES <= limits.max_uniform_buffer_binding_size
    &&& RECORD_BYTES * particles <= limits.max_storage_buffer_binding_size
    &&& CELL_BYTES * cells <= limits.max_storage_buffer_binding_size
    &&& GROUP_SIZE <= limits.max_compute_invocations_per_workgroup
    &&& GROUP_SIZE <= limits.max_compute_workgroup_size_x
    &&& workgroups_for(particles) <= limits.max_compute_workgroups_per_dimension
    &&& workgroups_for(cells) <= limits.max_compute_workgroups_per_dimension
}

impl State {
    /// The limits that the simulation asks of its device: those guaranteed
    /// on every downlevel device.
    pub fn required_limits() -> (limits: Limits)
        ensures
            limits == downlevel_limits(),
    {
        downlevel_default_limits()
    }

    /// The capabilities that the simulation asks of its device: compute
    /// shaders, and nothing else beyond the default shader model.
    pub fn required_downlevel_capabilities() -> (capabilities: DownlevelCapabilities)
        ensures
            capabilities == (DownlevelCapabilities {
                flags: compute_shaders_bit(),
                shader_model: ShaderModel::Sm5,
            }),
    {
        DownlevelCapabilities { flags: compute_shaders_flag(), shader_model: default_shader_model() }
    }

    /// Whether the simulation stays within `limits`.
    pub fn fits_limits(&self, limits: &Limits) -> (ok: bool)
        requires
            self.wf(),
        ensures
            ok == within(*limits, self.particle_count(), self.cell_count()),
    {
        proof {
            self.lemma_wf();
        }
        let particles = self.num_particles();
        let cells = self.num_cells();
        4 <= limits.max_bind_groups && 3 <= limits.max_storage_buffers_per_shader_stage && 1
            <= limits.max_uniform_buffers_per_shader_stage && 2 <= limits.max_vertex_buffers && 3
            <= limits.max_vertex_attributes && RECORD_BYTES <= limits.max_vertex_buffer_array_stride
            && PARAMETER_BYTES <= limits.max_uniform_buffer_binding_size && RECORD_BYTES * particles
            <= limits.max_storage_buffer_binding_size && CELL_BYTES * cells
            <= limits.max_storage_buffer_binding_size && GROUP_SIZE
            <= limits.max_compute_invocations_per_workgroup && GROUP_SIZE
            <= limits.max_compute_workgroup_size_x && crate::dispatch::workgroup_count(particles)
            <= limits.max_compute_workgroups_per_dimension && crate::dispatch::workgroup_count(cells)
            <= limits.max_compute_workgroups_per_dimension
    }
}

/// The reference configuration, three million particles on a field of 500
/// by 500 cells, stays within the limits of every downlevel device.
pub proof fn lemma_reference_within_downlevel()
    ensures
        within(downlevel_limits(), 3_000_000, 250_000),
{
}

/// A simulation that stays within given limits stays within any limits
/// that are nowhere smaller.
pub proof fn lemma_within_monotone(small: Limits, large: Limits, particles: nat, cells: nat)
    requires
        within(small, particles, cells),
        small.max_bind_groups <= large.max_bind_groups,
        small.max_storage_buffers_per_shader_stage <= large.max_storage_buffers_per_shader_stage,
        small.max_uniform_buffers_per_shader_stage <= large.max_uniform_buffers_per_shader_stage,
        small.max_uniform_buffer_binding_size <= large.max_uniform_buffer_binding_size,
        small.max_storage_buffer_binding_size <= large.max_storage_buffer_binding_size,
        small.max_vertex_buffers <= large.max_vertex_buffers,
        small.max_vertex_attributes <= large.max_vertex_attributes,
        small.max_vertex_buffer_array_stride <= large.max_vertex_buffer_array_stride,
        small.max_compute_invocations_per_workgroup <= large.max_compute_invocations_per_workgroup,
        small.max_compute_workgroup_size_x <= large.max_compute_workgroup_size_x,
        small.max_compute_workgroups_per_dimension <= large.max_compute_workgroups_per_dimension,
    ensures
        within(large, particles, cells),
{
}

} // verus!
