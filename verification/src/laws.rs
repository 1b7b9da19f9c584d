//! What holds of every well-formed orchestrator.

use vstd::prelude::*;
use crate::dispatch::{workgroups_for, GROUP_SIZE};
use crate::field::CELL_BYTES;
use crate::frame::{isolated, PassKind, PassView};
use crate::geometry::{SQUARE_VERTICES, TRIANGLE_VERTICES, VERTEX_STRIDE};
use crate::particles::RECORD_BYTES;
use crate::state::{Settings, State};

verus! {

/// No dispatch can observe its own writes through another binding: in the
/// map stage and in the particle stage alike, no buffer is bound twice, so
/// the map, the indicator and the particle store are three different
/// buffers, each behind one binding, and what a dispatch writes to one of
/// them it cannot read through a binding of another.
pub proof fn lemma_dispatches_isolated(state: State)
    requires
        state.wf(),
    ensures
        isolated(state.res().map_stage_bindings()),
        isolated(state.res().particle_stage_bindings()),
        state.res().raw_map_buffer.id != state.res().raw_indicator_buffer.id,
        state.res().raw_map_buffer.id != state.res().raw_particle_buffer.id,
        state.res().raw_indicator_buffer.id != state.res().raw_particle_buffer.id,
        forall|i: int, j: int|
            0 <= i < j < state.res().particle_stage_bindings().len()
                ==> state.res().particle_stage_bindings()[i].buffer
                != state.res().particle_stage_bindings()[j].buffer,
{
    state.lemma_wf();
    let base = choose|base: int| state.res().numbered_from(base);
    assert(state.res().numbered_from(base));
}

/// Every bind group of a dispatch was made for the binding layout that the
/// pipeline's layout names for its group, and every bound buffer is as large
/// as its slot declares.
pub proof fn lemma_groups_match_layouts(state: State)
    requires
        state.wf(),
    ensures
        state.map_pass() matches PassView::Compute(pass) && pass.bind_groups.len()
            == state.res().pipeline_layout_compute_map.bind_group_layouts@.len(),
        state.particle_pass() matches PassView::Compute(pass) && pass.bind_groups.len()
            == state.res().pipeline_layout_compute.bind_group_layouts@.len(),
        state.res().pipeline_layout_compute_map.bind_group_layouts@ == seq![
            state.res().const_bind_compute_group.layout,
            state.res().map_bind_group.layout,
            state.res().indicator_bind_group_compute.layout,
        ],
        state.res().pipeline_layout_compute.bind_group_layouts@ == seq![
            state.res().const_bind_compute_group.layout,
            state.res().particle_bind_group.layout,
            state.res().map_bind_group.layout,
            state.res().indicator_bind_group_compute.layout,
        ],
        state.res().raw_particle_buffer.size() == RECORD_BYTES * state.particle_count(),
        state.res().raw_map_buffer.size() == CELL_BYTES * state.cell_count(),
        state.res().raw_indicator_buffer.size() == state.res().raw_map_buffer.size(),
{
    state.lemma_wf();
}

/// The two shapes keep their vertex counts and their stride: the marker has
/// three vertices and the quad six, of twelve bytes each.
pub proof fn lemma_shapes_fixed(state: State)
    requires
        state.wf(),
    ensures
        state.res().triangle_vertex_buffer.size() == VERTEX_STRIDE * TRIANGLE_VERTICES,
        state.res().triangle_vertex_buffer.size() == 36,
        state.res().square_vertex_buffer.size() == VERTEX_STRIDE * SQUARE_VERTICES,
        state.res().square_vertex_buffer.size() == 72,
{
    state.lemma_wf();
}

/// `iterations` simulation steps take two compute passes each, first the
/// map stage, then the particle stage: the passes at even positions are
/// dispatches of the map stage, those at odd positions of the particle
/// stage.
pub proof fn lemma_simulation_shape(state: State, iterations: nat)
    ensures
        state.simulation_passes(iterations).len() == 2 * iterations,
        forall|p: int|
            0 <= p < 2 * iterations ==> #[trigger] state.simulation_passes(iterations)[p] == (if p
                % 2 == 0 {
                state.map_pass()
            } else {
                state.particle_pass()
            }),
    decreases iterations,
{
    if iterations > 0 {
        lemma_simulation_shape(state, (iterations - 1) as nat);
        let shorter = state.simulation_passes((iterations - 1) as nat);
        let all = state.simulation_passes(iterations);
        assert(all == shorter + seq![state.map_pass(), state.particle_pass()]);
        assert forall|p: int| 0 <= p < 2 * iterations implies #[trigger] all[p] == (if p % 2 == 0 {
            state.map_pass()
        } else {
            state.particle_pass()
        }) by {
            if p < 2 * (iterations - 1) {
                assert(all[p] == shorter[p]);
            }
        }
    }
}

/// The number of optional render passes that `settings` ask for.
pub open spec fn optional_draws(settings: Settings) -> nat {
    (if settings.render_particles {
        1nat
    } else {
        0nat
    }) + (if settings.render_indicators {
        1nat
    } else {
        0nat
    })
}

/// A frame holds its compute passes first, two for each simulation step,
/// then the draw of the map, which is never left out, then the optional
/// draws.
pub proof fn lemma_frame_shape(state: State)
    ensures
        state.frame_plan().len() == 2 * state.settings().iterations + 1 + optional_draws(
            state.settings(),
        ),
        state.frame_plan().subrange(0, 2 * state.settings().iterations as int)
            == state.simulation_passes(state.settings().iterations as nat),
        state.frame_plan()[2 * state.settings().iterations as int] == state.map_draw(),
        forall|k: int|
            0 <= k < 2 * state.settings().iterations ==> (#[trigger] state.frame_plan()[k]).kind().is_compute(),
        forall|k: int|
            2 * state.settings().iterations <= k < state.frame_plan().len() ==> !(
            #[trigger] state.frame_plan()[k]).kind().is_compute(),
{
    let n = state.settings().iterations as nat;
    lemma_simulation_shape(state, n);
    let sim = state.simulation_passes(n);
    let plan = state.frame_plan();
    assert(plan.subrange(0, 2 * n as int) =~= sim);
    assert forall|k: int| 0 <= k < 2 * n implies (#[trigger] plan[k]).kind().is_compute() by {
        assert(plan[k] == sim[k]);
    }
}

/// The compute passes of a frame do not depend on which draws are asked
/// for: two orchestrators that differ in nothing else submit the same
/// compute passes.
pub proof fn lemma_simulation_ignores_draws(a: State, b: State)
    requires
        a.res() == b.res(),
        a.particle_count() == b.particle_count(),
        a.cell_count() == b.cell_count(),
        a.settings().iterations == b.settings().iterations,
    ensures
        a.frame_plan().subrange(0, 2 * a.settings().iterations as int) == b.frame_plan().subrange(
            0,
            2 * b.settings().iterations as int,
        ),
{
    lemma_frame_shape(a);
    lemma_frame_shape(b);
    a.lemma_same_simulation(b, a.settings().iterations as nat);
}

/// Each dispatch of a frame has one invocation for every particle, and one
/// for every cell, with at most one group of invocations to spare.
pub proof fn lemma_dispatches_cover(state: State)
    requires
        state.wf(),
    ensures
        state.map_pass() matches PassView::Compute(pass) && pass.workgroups == 1
            + state.cell_count() / (GROUP_SIZE as nat) && state.cell_count() < pass.workgroups
            * GROUP_SIZE <= state.cell_count() + GROUP_SIZE,
        state.particle_pass() matches PassView::Compute(pass) && pass.workgroups == 1
            + state.particle_count() / (GROUP_SIZE as nat) && state.particle_count()
            < pass.workgroups * GROUP_SIZE <= state.particle_count() + GROUP_SIZE,
{
    state.lemma_wf();
}

/// Whether each state of `history` but the first arose from the one before
/// it by one call of `render`, `begin_frame`, `end_frame`, `abandon_frame`,
/// `update` or `resize`: every one of them leaves its state unchanged but
/// for the phase and the frame counter.
pub open spec fn is_history(history: Seq<State>) -> bool {
    forall|i: int|
        0 < i < history.len() ==> (#[trigger] history[i]).unchanged_but_phase(history[i - 1])
}

/// Whatever the number of calls, nothing that startup created changes: after
/// any history of frames, events and resizes the resources are those of the
/// first state. The marker still has its three vertices and the quad its
/// six, of twelve bytes each and with the bytes they were created with; the
/// parameter block, the sizes, the settings and the passes of a frame are
/// the same as well.
pub proof fn lemma_resources_never_change(history: Seq<State>)
    requires
        history.len() > 0,
        history[0].wf(),
        is_history(history),
    ensures
        forall|i: int|
            0 <= i < history.len() ==> {
                &&& (#[trigger] history[i]).wf()
                &&& history[i].res() == history[0].res()
                &&& history[i].particle_count() == history[0].particle_count()
                &&& history[i].cell_count() == history[0].cell_count()
                &&& history[i].settings() == history[0].settings()
                &&& history[i].frame_plan() == history[0].frame_plan()
                &&& history[i].res().triangle_vertex_buffer.size() == VERTEX_STRIDE
                    * TRIANGLE_VERTICES
                &&& history[i].res().square_vertex_buffer.size() == VERTEX_STRIDE * SQUARE_VERTICES
                &&& history[i].res().triangle_vertex_buffer.contents@
                    == history[0].res().triangle_vertex_buffer.contents@
                &&& history[i].res().square_vertex_buffer.contents@
                    == history[0].res().square_vertex_buffer.contents@
                &&& history[i].res().constant_data_buffer.contents@
                    == history[0].res().constant_data_buffer.contents@
            },
    decreases history.len(),
{
    history[0].lemma_wf();
    if history.len() > 1 {
        let earlier = history.drop_last();
        assert forall|i: int| 0 < i < earlier.len() implies (#[trigger] earlier[i]).unchanged_but_phase(
            earlier[i - 1],
        ) by {
            assert(earlier[i] == history[i]);
            assert(earlier[i - 1] == history[i - 1]);
        }
        lemma_resources_never_change(earlier);
        let last = history.len() - 1;
        assert(history[last].unchanged_but_phase(history[last - 1]));
        assert(earlier[last - 1] == history[last - 1]);
        assert(earlier[0] == history[0]);
        assert forall|i: int| 0 <= i < history.len() implies {
            &&& (#[trigger] history[i]).wf()
            &&& history[i].res() == history[0].res()
            &&& history[i].particle_count() == history[0].particle_count()
            &&& history[i].cell_count() == history[0].cell_count()
            &&& history[i].settings() == history[0].settings()
            &&& history[i].frame_plan() == history[0].frame_plan()
        } by {
            if i < last {
                assert(earlier[i] == history[i]);
            }
        }
    }
}

} // verus!
