//! Creation of buffers, shader modules, layouts, compute pipelines and bind
//! groups.

use vstd::prelude::*;
use crate::error::ConfigError;
use crate::resources::{
    simulation_usages, BindGroup, BindGroupEntry, BindGroupLayout, BindGroupLayoutEntry, Buffer,
    BufferBindingType, BufferUsages, ComputePipeline, Device, PipelineLayout, ResourceKind,
    ShaderModule, ShaderStage,
};

verus! {

/// Bytes of one 32-bit word.
pub const WORD_BYTES: u32 = 4;

/// Byte `k` of a word, counted from its low end.
pub open spec fn byte_of(word: u32, k: int) -> u8 {
    if k == 0 {
        (word % 256) as u8
    } else if k == 1 {
        (word / 256 % 256) as u8
    } else if k == 2 {
        (word / 65536 % 256) as u8
    } else {
        (word / 16777216) as u8
    }
}

/// The bytes of `words`, word after word, the low byte of each word first.
pub open spec fn low_first(words: Seq<u32>) -> Seq<u8> {
    Seq::new(4 * words.len(), |j: int| byte_of(words[j / 4], j % 4))
}

/// The bytes of `words`, word after word, the high byte of each word first.
pub open spec fn high_first(words: Seq<u32>) -> Seq<u8> {
    Seq::new(4 * words.len(), |j: int| byte_of(words[j / 4], 3 - j % 4))
}

/// Whether `bytes` are the bytes of `words` as a machine keeps them in
/// memory: word after word, and within every word either the low byte first
/// or the high byte first, the same way for all words.
pub open spec fn holds_words(bytes: Seq<u8>, words: Seq<u32>) -> bool {
    bytes == low_first(words) || bytes == high_first(words)
}

/// Bytes that hold words are four for each word and keep zero words zero.
pub proof fn lemma_holds_words(bytes: Seq<u8>, words: Seq<u32>)
    requires
        holds_words(bytes, words),
    ensures
        bytes.len() == 4 * words.len(),
        (forall|i: int| 0 <= i < words.len() ==> words[i] == 0) ==> (forall|j: int|
            0 <= j < bytes.len() ==> bytes[j] == 0),
{
    if forall|i: int| 0 <= i < words.len() ==> words[i] == 0 {
        assert forall|j: int| 0 <= j < bytes.len() implies bytes[j] == 0 by {
            assert(words[j / 4] == 0);
        }
    }
}

/// Calls `bytemuck::cast_slice` on a slice of 32-bit words, asking for bytes,
/// and copies the bytes out. The cast keeps the memory and changes only the
/// element type, so the result is the words as they lie in memory: four
/// bytes for every word, in the byte order of the machine, which is either
/// low byte first or high byte first. The cast does not fail: bytes need no
/// alignment, and a byte divides every length.
#[verifier::external_body]
fn words_to_bytes(words: &Vec<u32>) -> (bytes: Vec<u8>)
    ensures
        holds_words(bytes@, words@),
{
    let bytes: &[u8] = bytemuck::cast_slice(words.as_slice());
    bytes.to_vec()
}

/// Creates a buffer that holds the given words as they lie in memory, usable
/// as vertex input, copy destination, storage and uniform.
pub fn make_buffer(device: &mut Device, source: &Vec<u32>) -> (buffer: Buffer)
    ensures
        final(device)@ == old(device)@.push(ResourceKind::Buffer),
        buffer.id == old(device)@.len(),
        holds_words(buffer.contents@, source@),
        buffer.size() == WORD_BYTES * source@.len(),
        buffer.usage == simulation_usages(),
        (forall|i: int| 0 <= i < source@.len() ==> source@[i] == 0) ==> (forall|j: int|
            0 <= j < buffer.size() ==> buffer.contents@[j] == 0),
{
    let contents = words_to_bytes(source);
    proof {
        lemma_holds_words(contents@, source@);
    }
    let id = device.register(ResourceKind::Buffer);
    Buffer {
        id,
        contents,
        usage: BufferUsages { vertex: true, copy_dst: true, storage: true, uniform: true },
    }
}

/// Creates a shader module from its source text.
pub fn make_shader(device: &mut Device, source: &str) -> (shader: ShaderModule)
    ensures
        final(device)@ == old(device)@.push(ResourceKind::ShaderModule),
        shader.id == old(device)@.len(),
        shader.source@ == source@,
{
    let id = device.register(ResourceKind::ShaderModule);
    ShaderModule { id, source: source.to_owned() }
}

/// The least size that a slot declares for a declared size of `size` bytes:
/// none for zero, the size itself otherwise.
pub open spec fn min_size_for(size: u32) -> Option<u64> {
    if size == 0 {
        None
    } else {
        Some(size as u64)
    }
}

/// The slot with index `index` of a layout whose slots are all seen by
/// `stage` and accessed as `bind_type`, for a buffer of `size` bytes.
pub open spec fn layout_entry(
    index: int,
    stage: ShaderStage,
    bind_type: BufferBindingType,
    size: u32,
) -> BindGroupLayoutEntry {
    BindGroupLayoutEntry {
        binding: index as u32,
        visibility: stage,
        ty: bind_type,
        has_dynamic_offset: false,
        min_binding_size: min_size_for(size),
    }
}

/// The slots of a layout made from the declared sizes `sizes`.
pub open spec fn layout_entries(
    stage: ShaderStage,
    bind_type: BufferBindingType,
    sizes: Seq<u32>,
) -> Seq<BindGroupLayoutEntry> {
    Seq::new(sizes.len(), |i: int| layout_entry(i, stage, bind_type, sizes[i]))
}

/// Creates a binding layout with one slot per declared size. Slot `i` has
/// index `i`, is seen by `stage`, is accessed as `bind_type`, takes no
/// dynamic offset and declares `sizes[i]` as its least size.
pub fn make_binding_layout(
    device: &mut Device,
    stage: ShaderStage,
    bind_type: BufferBindingType,
    sizes: &[u32],
) -> (layout: BindGroupLayout)
    requires
        sizes@.len() <= u32::MAX,
    ensures
        final(device)@ == old(device)@.push(ResourceKind::BindGroupLayout),
        layout.id == old(device)@.len(),
        layout.entries@ == layout_entries(stage, bind_type, sizes@),
{
    let mut entries: Vec<BindGroupLayoutEntry> = Vec::new();
    let mut i: usize = 0;
    while i < sizes.len()
        invariant
            i <= sizes@.len() <= u32::MAX,
            entries@.len() == i,
            forall|k: int|
                0 <= k < i ==> entries@[k] == layout_entry(k, stage, bind_type, sizes@[k]),
        decreases sizes@.len() - i,
    {
        let size: u32 = sizes[i];
        let min_binding_size: Option<u64> = if size == 0 {
            None
        } else {
            Some(size as u64)
        };
        entries.push(
            BindGroupLayoutEntry {
                binding: i as u32,
                visibility: stage,
                ty: bind_type,
                has_dynamic_offset: false,
                min_binding_size,
            },
        );
        i = i + 1;
    }
    let id = device.register(ResourceKind::BindGroupLayout);
    BindGroupLayout { id, entries }
}

/// The identities of the given binding layouts, in order.
pub open spec fn layout_ids(layouts: Seq<&BindGroupLayout>) -> Seq<usize> {
    Seq::new(layouts.len(), |i: int| layouts[i].id)
}

/// Creates a pipeline layout whose group `i` follows `layouts[i]`.
pub fn make_pipeline_layout(device: &mut Device, layouts: &[&BindGroupLayout]) -> (layout:
    PipelineLayout)
    ensures
        final(device)@ == old(device)@.push(ResourceKind::PipelineLayout),
        layout.id == old(device)@.len(),
        layout.bind_group_layouts@ == layout_ids(layouts@),
{
    let mut ids: Vec<usize> = Vec::new();
    let mut i: usize = 0;
    while i < layouts.len()
        invariant
            i <= layouts@.len(),
            ids@.len() == i,
            forall|k: int| 0 <= k < i ==> ids@[k] == layouts@[k].id,
        decreases layouts@.len() - i,
    {
        ids.push(layouts[i].id);
        i = i + 1;
    }
    let id = device.register(ResourceKind::PipelineLayout);
    PipelineLayout { id, bind_group_layouts: ids }
}

/// Creates a compute pipeline that runs the entry point `main` of `shader`
/// with the groups of `layout`.
pub fn make_compute_pipeline(
    device: &mut Device,
    layout: &PipelineLayout,
    shader: &ShaderModule,
) -> (pipeline: ComputePipeline)
    ensures
        final(device)@ == old(device)@.push(ResourceKind::ComputePipeline),
        pipeline.id == old(device)@.len(),
        pipeline.layout == layout.id,
        pipeline.module == shader.id,
        pipeline.entry_point@ == "main"@,
{
    let id = device.register(ResourceKind::ComputePipeline);
    ComputePipeline { id, layout: layout.id, module: shader.id, entry_point: "main".to_owned() }
}

/// What is wrong with binding `buffer` to the slot `entry`, which is the
/// slot at position `index` of its layout, if anything: the buffer's usages
/// do not allow the slot's kind of access, or, that being in order, the
/// buffer is smaller than the slot's least size. The fault names the
/// position, which is the index under which the buffer would be bound.
pub open spec fn binding_fault(index: int, entry: BindGroupLayoutEntry, buffer: &Buffer) -> Option<
    ConfigError,
> {
    if !buffer.usage.allows(entry.ty) {
        Some(ConfigError::BindingKindMismatch { binding: index as u32 })
    } else if entry.min_binding_size is Some && buffer.size() < entry.min_binding_size->0 {
        Some(
            ConfigError::BindingTooSmall {
                binding: index as u32,
                required: entry.min_binding_size->0,
                actual: buffer.size() as u64,
            },
        )
    } else {
        None
    }
}

/// The fault of the first slot, from position `from` on, whose buffer does
/// not fit it; `None` when every buffer from there on fits its slot.
pub open spec fn first_fault(
    entries: Seq<BindGroupLayoutEntry>,
    buffers: Seq<&Buffer>,
    from: int,
) -> Option<ConfigError>
    decreases entries.len() - from,
{
    if from < 0 || from >= entries.len() {
        None
    } else if binding_fault(from, entries[from], buffers[from]) is Some {
        binding_fault(from, entries[from], buffers[from])
    } else {
        first_fault(entries, buffers, from + 1)
    }
}

/// Why `buffers` cannot be bound to the slots `entries`, if they cannot:
/// their number differs from the number of slots, or else some buffer does
/// not fit its slot, and the first such slot is named.
pub open spec fn bind_group_fault(
    entries: Seq<BindGroupLayoutEntry>,
    buffers: Seq<&Buffer>,
) -> Option<ConfigError> {
    if entries.len() != buffers.len() {
        Some(
            ConfigError::BindingCountMismatch {
                expected: entries.len() as usize,
                found: buffers.len() as usize,
            },
        )
    } else {
        first_fault(entries, buffers, 0)
    }
}

/// The bound buffer at position `index` of a bind group: the whole of
/// `buffer`, bound under the index `index`, accessed as the slot `entry` at
/// that position of the layout says.
pub open spec fn bound_entry(index: int, entry: BindGroupLayoutEntry, buffer: &Buffer) -> BindGroupEntry {
    BindGroupEntry { binding: index as u32, buffer: buffer.id, ty: entry.ty }
}

/// The bound buffers of a bind group made from `entries` and `buffers`:
/// buffer `i` is bound under index `i`.
pub open spec fn bound_entries(
    entries: Seq<BindGroupLayoutEntry>,
    buffers: Seq<&Buffer>,
) -> Seq<BindGroupEntry> {
    Seq::new(entries.len(), |i: int| bound_entry(i, entries[i], buffers[i]))
}

/// Every buffer fits its slot exactly when no slot has a fault.
pub proof fn lemma_no_fault_means_all_fit(
    entries: Seq<BindGroupLayoutEntry>,
    buffers: Seq<&Buffer>,
    from: int,
)
    requires
        0 <= from,
    ensures
        first_fault(entries, buffers, from) is None <==> (forall|k: int|
            from <= k < entries.len() ==> binding_fault(k, entries[k], buffers[k]) is None),
    decreases entries.len() - from,
{
    if from < entries.len() {
        lemma_no_fault_means_all_fit(entries, buffers, from + 1);
    }
}

/// Buffers bind to a layout made for their sizes: when slot `i` was declared
/// with `sizes[i]` bytes, and buffer `i` allows the layout's kind of access
/// and holds at least `sizes[i]` bytes, the bind group has no fault.
pub proof fn lemma_sized_buffers_bind(
    stage: ShaderStage,
    bind_type: BufferBindingType,
    sizes: Seq<u32>,
    buffers: Seq<&Buffer>,
)
    requires
        sizes.len() == buffers.len(),
        forall|i: int|
            0 <= i < buffers.len() ==> (#[trigger] buffers[i]).usage.allows(bind_type)
                && buffers[i].size() >= sizes[i],
    ensures
        bind_group_fault(layout_entries(stage, bind_type, sizes), buffers) is None,
{
    let entries = layout_entries(stage, bind_type, sizes);
    lemma_no_fault_means_all_fit(entries, buffers, 0);
    assert forall|k: int| 0 <= k < entries.len() implies binding_fault(k, entries[k], buffers[k])
        is None by {
        assert(buffers[k].usage.allows(bind_type));
    }
}

/// A bind group binds its buffers under the indices that a layout made by
/// [`make_binding_layout`] gives its slots: position and index agree.
pub proof fn lemma_bound_indices_match_layout(
    stage: ShaderStage,
    bind_type: BufferBindingType,
    sizes: Seq<u32>,
    buffers: Seq<&Buffer>,
)
    requires
        sizes.len() == buffers.len(),
    ensures
        forall|i: int|
            0 <= i < sizes.len() ==> (#[trigger] bound_entries(
                layout_entries(stage, bind_type, sizes),
                buffers,
            )[i]).binding == layout_entries(stage, bind_type, sizes)[i].binding,
{
}

/// Creates a bind group that binds the whole of `buffers[i]` under index `i`,
/// to be accessed as slot `i` of `layout` says. It fails, and creates
/// nothing, when the number of buffers is not the number of slots, when a
/// buffer's usages do not allow its slot's kind of access, or when a buffer
/// is smaller than its slot's least size.
pub fn make_bind_group(device: &mut Device, layout: &BindGroupLayout, buffers: &[&Buffer]) -> (group:
    Result<BindGroup, ConfigError>)
    requires
        layout.entries@.len() <= u32::MAX,
    ensures
        match group {
            Ok(g) => {
                &&& bind_group_fault(layout.entries@, buffers@) is None
                &&& final(device)@ == old(device)@.push(ResourceKind::BindGroup)
                &&& g.id == old(device)@.len()
                &&& g.layout == layout.id
                &&& g.entries@ == bound_entries(layout.entries@, buffers@)
            },
            Err(e) => {
                &&& bind_group_fault(layout.entries@, buffers@) == Some(e)
                &&& final(device)@ == old(device)@
            },
        },
{
    let n = layout.entries.len();
    if n != buffers.len() {
        return Err(ConfigError::BindingCountMismatch { expected: n, found: buffers.len() });
    }
    let mut entries: Vec<BindGroupEntry> = Vec::new();
    let mut i: usize = 0;
    while i < n
        invariant
            n == layout.entries@.len(),
            n == buffers@.len(),
            n <= u32::MAX,
            i <= n,
            entries@.len() == i,
            first_fault(layout.entries@, buffers@, 0) == first_fault(
                layout.entries@,
                buffers@,
                i as int,
            ),
            forall|k: int|
                0 <= k < i ==> entries@[k] == bound_entry(k, layout.entries@[k], buffers@[k]),
        decreases n - i,
    {
        let entry = layout.entries[i];
        let buffer = buffers[i];
        let binding: u32 = i as u32;
        if !buffer.usage.permits(entry.ty) {
            return Err(ConfigError::BindingKindMismatch { binding });
        }
        let actual: u64 = buffer.byte_size() as u64;
        match entry.min_binding_size {
            Some(required) => {
                if actual < required {
                    return Err(ConfigError::BindingTooSmall { binding, required, actual });
                }
            },
            None => {},
        }
        entries.push(BindGroupEntry { binding, buffer: buffer.id, ty: entry.ty });
        i = i + 1;
    }
    let id = device.register(ResourceKind::BindGroup);
    Ok(BindGroup { id, layout: layout.id, entries })
}

} // verus!
