//! Descriptions of the resources that the simulation creates on its device.
//!
//! A [`Device`] hands out identities. Every resource is a plain record of
//! what it was created from together with the identity it was given, so
//! that two buffers of equal size and contents are still two buffers.

use vstd::prelude::*;

verus! {

/// The kinds of resource that a device creates.
#[derive(Clone, Copy, Debug, PartialEq, Eq, Structural)]
pub enum ResourceKind {
    Buffer,
    ShaderModule,
    BindGroupLayout,
    PipelineLayout,
    ComputePipeline,
    RenderPipeline,
    BindGroup,
}

/// The device on which resources are created. It keeps the kind of every
/// resource created so far, in order of creation; the position of a resource
/// in that order is its identity.
pub struct Device {
    log: Vec<ResourceKind>,
}

impl View for Device {
    type V = Seq<ResourceKind>;

    closed spec fn view(&self) -> Seq<ResourceKind> {
        self.log@
    }
}

impl Device {
    /// A device on which nothing has been created.
    pub fn new() -> (device: Device)
        ensures
            device@ == Seq::<ResourceKind>::empty(),
    {
        Device { log: Vec::new() }
    }

    /// Number of resources created so far.
    pub fn created(&self) -> (n: usize)
        ensures
            n == self@.len(),
    {
        self.log.len()
    }

    /// Kind of the resource with identity `id`, if one was created.
    pub fn kind_of(&self, id: usize) -> (kind: Option<ResourceKind>)
        ensures
            kind == if id < self@.len() {
                Some(self@[id as int])
            } else {
                None
            },
    {
        if id < self.log.len() {
            Some(self.log[id])
        } else {
            None
        }
    }

    /// Records the creation of one resource and returns its identity.
    pub(crate) fn register(&mut self, kind: ResourceKind) -> (id: usize)
        ensures
            final(self)@ == old(self)@.push(kind),
            id == old(self)@.len(),
    {
        let id = self.log.len();
        self.log.push(kind);
        id
    }
}

/// The shader stage that sees a binding.
#[derive(Clone, Copy, Debug, PartialEq, Eq, Structural)]
pub enum ShaderStage {
    Vertex,
    Fragment,
    Compute,
}

/// How a shader accesses a bound buffer.
#[derive(Clone, Copy, Debug, PartialEq, Eq, Structural)]
pub enum BufferBindingType {
    /// Read-only block of uniform values.
    Uniform,
    /// Freely indexed storage, writable unless `read_only`.
    Storage { read_only: bool },
}

impl BufferBindingType {
    /// Whether a shader may write through a binding of this type.
    pub open spec fn writable(self) -> bool {
        self == (BufferBindingType::Storage { read_only: false })
    }

    /// Whether a shader may write through a binding of this type.
    pub fn is_writable(self) -> (w: bool)
        ensures
            w == self.writable(),
    {
        match self {
            BufferBindingType::Uniform => false,
            BufferBindingType::Storage { read_only } => !read_only,
        }
    }
}

/// What a buffer may be used for.
#[derive(Clone, Copy, Debug, PartialEq, Eq, Structural)]
pub struct BufferUsages {
    pub vertex: bool,
    pub copy_dst: bool,
    pub storage: bool,
    pub uniform: bool,
}

impl BufferUsages {
    /// Whether a buffer with these usages may stand behind a binding of type
    /// `ty`.
    pub open spec fn allows(self, ty: BufferBindingType) -> bool {
        match ty {
            BufferBindingType::Uniform => self.uniform,
            BufferBindingType::Storage { .. } => self.storage,
        }
    }

    /// Whether a buffer with these usages may stand behind a binding of type
    /// `ty`.
    pub fn permits(self, ty: BufferBindingType) -> (ok: bool)
        ensures
            ok == self.allows(ty),
    {
        match ty {
            BufferBindingType::Uniform => self.uniform,
            BufferBindingType::Storage { .. } => self.storage,
        }
    }
}

/// The usages every buffer of the simulation is created with: vertex input,
/// copy destination, storage and uniform.
pub open spec fn simulation_usages() -> BufferUsages {
    BufferUsages { vertex: true, copy_dst: true, storage: true, uniform: true }
}

/// A buffer: its identity, the bytes it is created with and its usages.
pub struct Buffer {
    pub id: usize,
    pub contents: Vec<u8>,
    pub usage: BufferUsages,
}

impl Buffer {
    /// Size of the buffer in bytes.
    pub open spec fn size(&self) -> nat {
        self.contents@.len()
    }

    /// Size of the buffer in bytes.
    pub fn byte_size(&self) -> (n: usize)
        ensures
            n == self.size(),
    {
        self.contents.len()
    }
}

/// A shader module: its identity and its source text.
pub struct ShaderModule {
    pub id: usize,
    pub source: String,
}

/// One slot of a binding layout.
#[derive(Clone, Copy, Debug, PartialEq, Eq, Structural)]
pub struct BindGroupLayoutEntry {
    /// Index of the slot.
    pub binding: u32,
    /// The stage that sees the slot.
    pub visibility: ShaderStage,
    /// How the bound buffer is accessed.
    pub ty: BufferBindingType,
    /// Whether the binding takes an offset at each use. Never, here.
    pub has_dynamic_offset: bool,
    /// Least size in bytes of a buffer bound to the slot; `None` for no
    /// lower bound. A `Some` never holds zero.
    pub min_binding_size: Option<u64>,
}

/// A binding layout: an ordered list of slots.
pub struct BindGroupLayout {
    pub id: usize,
    pub entries: Vec<BindGroupLayoutEntry>,
}

/// A pipeline layout: the identities of the binding layouts of its groups,
/// by group index.
pub struct PipelineLayout {
    pub id: usize,
    pub bind_group_layouts: Vec<usize>,
}

/// A compute pipeline.
pub struct ComputePipeline {
    pub id: usize,
    /// Identity of the pipeline layout.
    pub layout: usize,
    /// Identity of the shader module.
    pub module: usize,
    pub entry_point: String,
}

/// One bound buffer of a bind group. The whole buffer is bound.
#[derive(Clone, Copy, Debug, PartialEq, Eq, Structural)]
pub struct BindGroupEntry {
    /// Index of the slot.
    pub binding: u32,
    /// Identity of the buffer.
    pub buffer: usize,
    /// How the slot accesses the buffer.
    pub ty: BufferBindingType,
}

/// A bind group: buffers bound to the slots of one layout.
pub struct BindGroup {
    pub id: usize,
    /// Identity of the layout.
    pub layout: usize,
    pub entries: Vec<BindGroupEntry>,
}

} // verus!
