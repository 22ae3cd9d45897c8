//! Layout of the first-order rope state vector handed to a general ODE
//! solver: four consecutive scalars per node, `x`, `y`, `vx`, `vy`.

use vstd::prelude::*;

verus! {

/// State entry holding `component` (0 to 3 for `x`, `y`, `vx`, `vy`) of `node`.
pub open spec fn entry_index(node: int, component: int) -> int {
    4 * node + component
}

/// Node that owns state entry `index`.
pub open spec fn node_of(index: int) -> int {
    index / 4
}

/// Component (`x`, `y`, `vx`, `vy` as 0 to 3) that state entry `index` holds.
pub open spec fn component_of(index: int) -> int {
    index % 4
}

/// Whether all four state entries of `node` have a `usize` index.
pub open spec fn addressable(node: int) -> bool {
    0 <= node && 4 * node + 3 <= usize::MAX
}

/// Index of the `x` position of `node`.
pub fn pos_x(node: usize) -> (index: usize)
    requires
        addressable(node as int),
    ensures
        index == 4 * node,
{
    4 * node
}

/// Index of the `y` position of `node`.
pub fn pos_y(node: usize) -> (index: usize)
    requires
        addressable(node as int),
    ensures
        index == 4 * node + 1,
{
    4 * node + 1
}

/// Index of the `x` velocity of `node`.
pub fn vel_x(node: usize) -> (index: usize)
    requires
        addressable(node as int),
    ensures
        index == 4 * node + 2,
{
    4 * node + 2
}

/// Index of the `y` velocity of `node`.
pub fn vel_y(node: usize) -> (index: usize)
    requires
        addressable(node as int),
    ensures
        index == 4 * node + 3,
{
    4 * node + 3
}

/// Length of the state vector of a rope of `segment_count` segments, which
/// has `segment_count + 1` nodes.
pub fn state_len(segment_count: usize) -> (length: usize)
    requires
        4 * (segment_count + 1) <= usize::MAX,
    ensures
        length == 4 * (segment_count + 1),
{
    4 * (segment_count + 1)
}

/// The layout is a bijection between `(node, component)` pairs of a rope of
/// `segment_count` segments and the indices of its state vector: every
/// index below `state_len` belongs to exactly one node and component, and
/// every node's entries lie below `state_len`.
pub proof fn lemma_layout_is_bijective(segment_count: int)
    requires
        addressable(segment_count),
    ensures
        forall|index: int|
            0 <= index < 4 * (segment_count + 1) ==> {
                &&& 0 <= #[trigger] node_of(index) <= segment_count
                &&& 0 <= component_of(index) < 4
                &&& index == entry_index(node_of(index), component_of(index))
            },
        forall|n1: int, c1: int, n2: int, c2: int|
            0 <= c1 < 4 && 0 <= c2 < 4 && #[trigger] entry_index(n1, c1) == #[trigger] entry_index(n2, c2)
                ==> n1 == n2 && c1 == c2,
        forall|node: int, component: int|
            0 <= node <= segment_count && 0 <= component < 4 ==> 0 <= #[trigger] entry_index(node, component)
                < 4 * (segment_count + 1),
{
    assert forall|n1: int, c1: int, n2: int, c2: int|
        0 <= c1 < 4 && 0 <= c2 < 4 && #[trigger] entry_index(n1, c1) == #[trigger] entry_index(n2, c2) implies n1 == n2 && c1 == c2 by {
        if n1 < n2 {
            assert(4 * n1 + c1 < 4 * n2 + c2);
        } else if n2 < n1 {
            assert(4 * n2 + c2 < 4 * n1 + c1);
        }
    }
}

} // verus!
