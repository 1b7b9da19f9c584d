//! The passes of one frame and the rule that keeps a dispatch free of
//! read-write hazards.

use vstd::prelude::*;
use crate::resources::BindGroupEntry;

verus! {

/// The passes that a frame can hold.
#[derive(Clone, Copy, Debug, PartialEq, Eq, Structural)]
pub enum PassKind {
    /// Compute: fade and erase the trail grids and fold in the deposits.
    MapUpdate,
    /// Compute: sense the grids and move every particle.
    ParticleUpdate,
    /// Render: one quad per map cell.
    RenderMap,
    /// Render: one marker per particle.
    RenderParticles,
    /// Render: one quad per indicator cell.
    RenderIndicators,
}

impl PassKind {
    /// Whether the pass is one of the two compute stages.
    pub open spec fn is_compute(self) -> bool {
        self == PassKind::MapUpdate || self == PassKind::ParticleUpdate
    }

    /// The label of the debug group that encloses the pass.
    pub fn label(self) -> (label: &'static str)
        ensures
            self == PassKind::MapUpdate ==> label@ == "compute map changes"@,
            self == PassKind::ParticleUpdate ==> label@ == "compute boid movement"@,
            self == PassKind::RenderMap ==> label@ == "render map"@,
            self == PassKind::RenderParticles ==> label@ == "render boids"@,
            self == PassKind::RenderIndicators ==> label@ == "render indicators"@,
    {
        match self {
            PassKind::MapUpdate => "compute map changes",
            PassKind::ParticleUpdate => "compute boid movement",
            PassKind::RenderMap => "render map",
            PassKind::RenderParticles => "render boids",
            PassKind::RenderIndicators => "render indicators",
        }
    }
}

/// One compute dispatch: a pipeline, the bind groups of its groups by index,
/// and `workgroups` by one by one workgroups.
pub struct ComputePass {
    pub kind: PassKind,
    /// Identity of the compute pipeline.
    pub pipeline: usize,
    /// Identities of the bind groups, by group index.
    pub bind_groups: Vec<usize>,
    pub workgroups: u32,
}

/// One draw: a pipeline, the bind group of group 0, the buffer stepped per
/// instance in slot 0, the buffer stepped per vertex in slot 1, and the
/// counts of vertices and instances, both drawn from zero. The target is
/// loaded, not cleared, and stored.
#[derive(Clone, Copy, Debug, PartialEq, Eq, Structural)]
pub struct RenderPass {
    pub kind: PassKind,
    /// Identity of the render pipeline.
    pub pipeline: usize,
    /// Identity of the bind group of group 0.
    pub bind_group: usize,
    /// Identity of the buffer in vertex slot 0.
    pub instance_buffer: usize,
    /// Identity of the buffer in vertex slot 1.
    pub shape_buffer: usize,
    pub vertices: u32,
    pub instances: u32,
}

/// One pass of a frame.
pub enum Pass {
    Compute(ComputePass),
    Render(RenderPass),
}

/// A compute dispatch as a value of specifications.
pub ghost struct ComputePassView {
    pub kind: PassKind,
    pub pipeline: usize,
    pub bind_groups: Seq<usize>,
    pub workgroups: u32,
}

/// A pass as a value of specifications.
pub ghost enum PassView {
    Compute(ComputePassView),
    Render(RenderPass),
}

impl View for ComputePass {
    type V = ComputePassView;

    open spec fn view(&self) -> ComputePassView {
        ComputePassView {
            kind: self.kind,
            pipeline: self.pipeline,
            bind_groups: self.bind_groups@,
            workgroups: self.workgroups,
        }
    }
}

impl View for Pass {
    type V = PassView;

    open spec fn view(&self) -> PassView {
        match self {
            Pass::Compute(pass) => PassView::Compute(pass@),
            Pass::Render(pass) => PassView::Render(*pass),
        }
    }
}

impl PassView {
    /// The kind of the pass.
    pub open spec fn kind(self) -> PassKind {
        match self {
            PassView::Compute(pass) => pass.kind,
            PassView::Render(pass) => pass.kind,
        }
    }
}

/// The passes of a frame as values of specifications, in order.
pub open spec fn plan_view(plan: Seq<Pass>) -> Seq<PassView> {
    Seq::new(plan.len(), |i: int| plan[i]@)
}

/// No buffer that a dispatch may write is bound to it twice: two bindings
/// of one dispatch share a buffer only if neither is writable. Invocations
/// of one dispatch run in no order, so a buffer that one binding writes and
/// another reads or writes would let an invocation see, or lose, what
/// another wrote.
pub open spec fn isolated(bound: Seq<BindGroupEntry>) -> bool {
    forall|i: int, j: int|
        0 <= i < j < bound.len() && bound[i].buffer == bound[j].buffer ==> !bound[i].ty.writable()
            && !bound[j].ty.writable()
}

/// Whether binding `at` shares its buffer, against the rule, with none of
/// the bindings before position `upto`.
pub open spec fn clear_of(bound: Seq<BindGroupEntry>, at: int, upto: int) -> bool {
    forall|i: int|
        0 <= i < upto && bound[i].buffer == bound[at].buffer ==> !bound[i].ty.writable()
            && !bound[at].ty.writable()
}

/// Checks the bindings of one dispatch against the rule of [`isolated`].
pub fn is_isolated(bound: &Vec<BindGroupEntry>) -> (ok: bool)
    ensures
        ok == isolated(bound@),
{
    let n = bound.len();
    let mut j: usize = 0;
    while j < n
        invariant
            n == bound@.len(),
            j <= n,
            forall|b: int| 0 <= b < j ==> clear_of(bound@, b, b),
        decreases n - j,
    {
        let mut i: usize = 0;
        while i < j
            invariant
                n == bound@.len(),
                i <= j < n,
                clear_of(bound@, j as int, i as int),
            decreases j - i,
        {
            if bound[i].buffer == bound[j].buffer && (bound[i].ty.is_writable()
                || bound[j].ty.is_writable()) {
                return false;
            }
            i = i + 1;
        }
        j = j + 1;
    }
    assert forall|i: int, j: int|
        0 <= i < j < bound@.len() && bound@[i].buffer == bound@[j].buffer implies !bound@[i].ty.writable()
        && !bound@[j].ty.writable() by {
        assert(clear_of(bound@, j, j));
    }
    true
}

} // verus!
