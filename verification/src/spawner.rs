//! How a spawner spreads the nodes it makes over the children that hold
//! them.
use vstd::prelude::*;

verus! {

/// The number of nodes that one child holds.
pub const ENTITIES_PER_CHILD: usize = 512;

/// The child that holds the node with a given number, counted over all
/// nodes that were ever spawned.
pub open spec fn slot_of(number: int) -> int {
    number / 512
}

/// The number of children that hold `total` nodes: one more than are
/// full.
pub open spec fn children_for(total: int) -> int {
    total / 512 + 1
}

/// The number of children that a spawner needs once the incoming nodes are
/// added to those it has.
pub fn children_required(current_spawns: usize, incoming: usize) -> (n: usize)
    requires
        current_spawns + incoming <= usize::MAX,
    ensures
        n == children_for(current_spawns + incoming),
{
    (current_spawns + incoming) / ENTITIES_PER_CHILD + 1
}

/// The child that takes the incoming node at `index`, for a spawner that
/// has `current_spawns` nodes already.
pub fn child_slot(current_spawns: usize, index: usize) -> (slot: usize)
    requires
        current_spawns + index <= usize::MAX,
    ensures
        slot == slot_of(current_spawns + index),
{
    (current_spawns + index) / ENTITIES_PER_CHILD
}

/// Every incoming node finds its child among those that are required.
pub proof fn lemma_slot_is_there(current_spawns: int, incoming: int, index: int)
    requires
        0 <= current_spawns,
        0 <= index < incoming,
    ensures
        0 <= slot_of(current_spawns + index) < children_for(current_spawns + incoming),
{
    assert((current_spawns + index) / 512 <= (current_spawns + incoming) / 512) by {
        vstd::arithmetic::div_mod::lemma_div_is_ordered(
            current_spawns + index,
            current_spawns + incoming,
            512,
        );
    }
}

} // verus!
