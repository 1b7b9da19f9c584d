//! Layout of vertex buffers: formats, attributes and strides.

use vstd::prelude::*;

verus! {

/// Format of one vertex attribute: one to four 32-bit floats.
#[derive(Clone, Copy, Debug, PartialEq, Eq, Structural)]
pub enum VertexFormat {
    Float32,
    Float32x2,
    Float32x3,
    Float32x4,
}

impl VertexFormat {
    /// Size of the format in bytes.
    pub open spec fn size(self) -> nat {
        match self {
            VertexFormat::Float32 => 4,
            VertexFormat::Float32x2 => 8,
            VertexFormat::Float32x3 => 12,
            VertexFormat::Float32x4 => 16,
        }
    }

    /// Size of the format in bytes.
    pub fn byte_size(self) -> (n: u64)
        ensures
            n == self.size(),
    {
        match self {
            VertexFormat::Float32 => 4,
            VertexFormat::Float32x2 => 8,
            VertexFormat::Float32x3 => 12,
            VertexFormat::Float32x4 => 16,
        }
    }
}

/// Whether a vertex buffer advances with each vertex or with each instance.
#[derive(Clone, Copy, Debug, PartialEq, Eq, Structural)]
pub enum VertexStepMode {
    Vertex,
    Instance,
}

/// One attribute of a vertex: its format, its byte offset within the vertex
/// and the shader location that receives it.
#[derive(Clone, Copy, Debug, PartialEq, Eq, Structural)]
pub struct VertexAttribute {
    pub format: VertexFormat,
    pub offset: u64,
    pub shader_location: u32,
}

/// How one vertex buffer is read: the distance in bytes from one element to
/// the next, the step mode and the attributes of an element.
pub struct VertexBufferLayout {
    pub array_stride: u64,
    pub step_mode: VertexStepMode,
    pub attributes: Vec<VertexAttribute>,
}

/// Sum of the sizes of the first `upto` formats of `slots`.
pub open spec fn offset_of(slots: Seq<(u32, VertexFormat)>, upto: int) -> nat
    decreases upto,
{
    if upto <= 0 || upto > slots.len() {
        0
    } else {
        offset_of(slots, upto - 1) + slots[upto - 1].1.size()
    }
}

/// The attributes packed one after another: attribute `i` has the location
/// and format of `slots[i]` and starts where the one before it ends.
pub open spec fn packed_attributes(slots: Seq<(u32, VertexFormat)>) -> Seq<VertexAttribute> {
    Seq::new(
        slots.len(),
        |i: int|
            VertexAttribute {
                format: slots[i].1,
                offset: offset_of(slots, i) as u64,
                shader_location: slots[i].0,
            },
    )
}

/// Offsets of packed attributes grow by at most sixteen bytes a slot.
pub proof fn lemma_offset_bound(slots: Seq<(u32, VertexFormat)>, upto: int)
    requires
        0 <= upto <= slots.len(),
    ensures
        offset_of(slots, upto) <= 16 * upto,
    decreases upto,
{
    if upto > 0 {
        lemma_offset_bound(slots, upto - 1);
    }
}

/// Lays out attributes one after another, each given by its shader location
/// and its format.
pub fn vertex_attributes(slots: &[(u32, VertexFormat)]) -> (attributes: Vec<VertexAttribute>)
    requires
        16 * slots@.len() <= u64::MAX,
    ensures
        attributes@ == packed_attributes(slots@),
{
    let mut attributes: Vec<VertexAttribute> = Vec::new();
    let mut offset: u64 = 0;
    let mut i: usize = 0;
    while i < slots.len()
        invariant
            i <= slots@.len(),
            16 * slots@.len() <= u64::MAX,
            offset == offset_of(slots@, i as int),
            attributes@.len() == i,
            forall|k: int| 0 <= k < i ==> attributes@[k] == packed_attributes(slots@)[k],
        decreases slots@.len() - i,
    {
        let slot = slots[i];
        attributes.push(VertexAttribute { format: slot.1, offset, shader_location: slot.0 });
        proof {
            lemma_offset_bound(slots@, i + 1);
        }
        offset = offset + slot.1.byte_size();
        i = i + 1;
    }
    attributes
}

/// Creates the layout of one vertex buffer with packed attributes.
pub fn vertex_buffer_layout(
    array_stride: u64,
    step_mode: VertexStepMode,
    slots: &[(u32, VertexFormat)],
) -> (layout: VertexBufferLayout)
    requires
        16 * slots@.len() <= u64::MAX,
    ensures
        layout.array_stride == array_stride,
        layout.step_mode == step_mode,
        layout.attributes@ == packed_attributes(slots@),
{
    VertexBufferLayout { array_stride, step_mode, attributes: vertex_attributes(slots) }
}

} // verus!
