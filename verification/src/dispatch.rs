//! Sizing of compute dispatches.
//!
//! Both compute stages run one invocation per work item (one per particle,
//! one per field cell) in workgroups of [`GROUP_SIZE`] invocations. The
//! number of workgroups is the integer quotient of the item count by the
//! group size, plus one, so every item is covered and at least one and at
//! most [`GROUP_SIZE`] invocations find no item and must do nothing.

use vstd::prelude::*;

verus! {

/// Number of invocations that one workgroup of either compute stage runs.
pub const GROUP_SIZE: u32 = 64;

/// Workgroups dispatched for `items` independent work items: the integer
/// quotient by the group size, plus one.
pub open spec fn workgroups_for(items: nat) -> nat {
    1 + items / (GROUP_SIZE as nat)
}

/// The least number of workgroups whose invocations cover `items` items.
pub open spec fn groups_needed(items: nat) -> nat {
    (items + GROUP_SIZE - 1) as nat / (GROUP_SIZE as nat)
}

/// Invocations of a dispatch over `items` items that find no item.
pub open spec fn idle_invocations(items: nat) -> int {
    workgroups_for(items) * GROUP_SIZE - items
}

/// Number of cells of a square field with `side` cells along each edge.
pub open spec fn cells_of(side: nat) -> nat {
    side * side
}

/// Computes the workgroup count of a dispatch over `items` work items.
pub fn workgroup_count(items: u32) -> (groups: u32)
    ensures
        groups == workgroups_for(items as nat),
{
    1 + items / GROUP_SIZE
}

/// Computes the number of cells of a square field, or `None` when that
/// number does not fit in 32 bits.
pub fn cell_count(side: u32) -> (cells: Option<u32>)
    ensures
        cells_of(side as nat) <= u32::MAX ==> cells == Some(cells_of(side as nat) as u32),
        cells_of(side as nat) > u32::MAX ==> cells is None,
{
    side.checked_mul(side)
}

/// Computes the workgroup count of a dispatch over the cells of a square
/// field, or `None` when the cell count does not fit in 32 bits.
pub fn field_workgroup_count(side: u32) -> (groups: Option<u32>)
    ensures
        cells_of(side as nat) <= u32::MAX ==> groups == Some(
            workgroups_for(cells_of(side as nat)) as u32,
        ),
        cells_of(side as nat) > u32::MAX ==> groups is None,
{
    match cell_count(side) {
        Some(cells) => Some(workgroup_count(cells)),
        None => None,
    }
}

/// A dispatch covers every item: the invocations of its workgroups are more
/// than the items, by at least one and at most one full group. The count is
/// never below the least count that covers, and exceeds it by one exactly
/// when the items fill whole groups.
pub proof fn lemma_dispatch_covers(items: nat)
    ensures
        workgroups_for(items) * GROUP_SIZE >= items,
        groups_needed(items) * GROUP_SIZE >= items,
        1 <= idle_invocations(items) <= GROUP_SIZE,
        groups_needed(items) <= workgroups_for(items) <= groups_needed(items) + 1,
        workgroups_for(items) == groups_needed(items) <==> items % (GROUP_SIZE as nat) != 0,
        idle_invocations(items) == GROUP_SIZE - items % (GROUP_SIZE as nat),
{
}

/// No smaller count covers more than the computed one leaves idle: with one
/// workgroup fewer, some item would be left without an invocation.
pub proof fn lemma_dispatch_is_tight(items: nat)
    ensures
        (workgroups_for(items) - 1) * GROUP_SIZE <= items,
{
}

/// More items never take fewer workgroups.
pub proof fn lemma_dispatch_monotone(fewer: nat, more: nat)
    requires
        fewer <= more,
    ensures
        workgroups_for(fewer) <= workgroups_for(more),
{
}

} // verus!
