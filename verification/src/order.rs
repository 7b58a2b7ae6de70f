//! The ordering policy: how an anchor maps insertion order to display order.
//!
//! A collection keeps its entities in insertion order, oldest first; display
//! order is a presentation-time concern decided here. A top-anchored stack
//! grows downward and renders newest-first, a bottom-anchored stack grows
//! upward and renders in insertion order — either way the newest entity
//! lands nearest the anchored edge.

use vstd::prelude::*;

use crate::anchor::Anchor;

verus! {

/// The insertion index rendered at display position `pos` (counted from the
/// top of the stack) in a collection of `n` entities.
///
/// Bottom anchors render in insertion order; top anchors render reversed,
/// newest first.
pub open spec fn spec_display_index(anchor: Anchor, n: int, pos: int) -> int {
    if anchor.spec_is_bottom() {
        pos
    } else {
        n - 1 - pos
    }
}

/// The display position (counted from the top of the stack) of the entity
/// with insertion index `idx` in a collection of `n` entities. The mapping
/// of [`spec_display_index`] is its own inverse.
pub open spec fn spec_display_position(anchor: Anchor, n: int, idx: int) -> int {
    spec_display_index(anchor, n, idx)
}

/// How many display positions separate the entity with insertion index
/// `idx` from the anchored edge. Position 0 is the top of the stack, so the
/// distance is the display position itself for a top anchor and the
/// distance from the far end for a bottom anchor.
pub open spec fn spec_edge_distance(anchor: Anchor, n: int, idx: int) -> int {
    if anchor.spec_is_bottom() {
        n - 1 - spec_display_position(anchor, n, idx)
    } else {
        spec_display_position(anchor, n, idx)
    }
}

/// The newest of any two entities renders closer to the anchored edge: for
/// every valid anchor, a higher insertion index (newer entity) means a
/// strictly smaller distance from the edge the stack is anchored to.
pub proof fn lemma_newest_nearest_anchor(anchor: Anchor, n: int, older: int, newer: int)
    requires
        anchor.spec_is_valid(),
        0 <= older < newer < n,
    ensures
        spec_edge_distance(anchor, n, newer) < spec_edge_distance(anchor, n, older),
{
}

/// Both mappings agree: the entity placed at display position `pos` has
/// that display position.
pub proof fn lemma_display_index_position_inverse(anchor: Anchor, n: int, pos: int)
    requires
        0 <= pos < n,
    ensures
        spec_display_position(anchor, n, spec_display_index(anchor, n, pos)) == pos,
{
}

/// The insertion indices of a collection of `n` entities, in the order the
/// display pass renders them (top of the stack first).
pub fn display_order(anchor: Anchor, n: usize) -> (order: Vec<usize>)
    requires
        anchor.spec_is_valid(),
    ensures
        order@.len() == n,
        forall|pos: int|
            0 <= pos < n ==> order@[pos] == spec_display_index(anchor, n as int, pos),
{
    let mut order: Vec<usize> = Vec::new();
    let bottom = anchor.is_bottom();
    let mut pos: usize = 0;
    while pos < n
        invariant
            pos <= n,
            order@.len() == pos,
            bottom == anchor.spec_is_bottom(),
            forall|p: int| 0 <= p < pos ==> order@[p] == spec_display_index(anchor, n as int, p),
        decreases n - pos,
    {
        if bottom {
            order.push(pos);
        } else {
            order.push(n - 1 - pos);
        }
        pos += 1;
    }
    order
}

/// The display position of the entity with insertion index `idx`, matching
/// [`spec_display_position`].
pub fn display_position(anchor: Anchor, n: usize, idx: usize) -> (pos: usize)
    requires
        anchor.spec_is_valid(),
        idx < n,
    ensures
        pos == spec_display_position(anchor, n as int, idx as int),
        pos < n,
{
    if anchor.is_bottom() {
        idx
    } else {
        n - 1 - idx
    }
}

} // verus!
