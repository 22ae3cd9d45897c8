//! Which rope nodes the implicit integrators solve for, and where each one's
//! two position unknowns sit in the Newton system.
//!
//! Node 0 is the fixed anchor. The last node carries the payload, which is
//! prescribed (and therefore not an unknown) while it is held. Every other
//! node is dynamic and contributes an `x` and a `y` unknown, numbered in node
//! order.

use vstd::prelude::*;

verus! {

/// Marker stored for nodes that own no unknowns.
pub const NOT_DYNAMIC: usize = usize::MAX;

/// Index of the payload node in a rope of `node_count` nodes.
pub fn payload_index(node_count: usize) -> (index: usize)
    requires
        node_count >= 1,
    ensures
        index == node_count - 1,
{
    node_count - 1
}

pub open spec fn spec_is_dynamic_node(index: int, node_count: int, payload_held: bool) -> bool {
    index != 0 && !(payload_held && index == node_count - 1)
}

/// Whether the integrators advance node `index`: the anchor never moves by
/// integration and a held payload follows its prescribed target instead.
pub fn is_dynamic_node(index: usize, node_count: usize, payload_held: bool) -> (dynamic: bool)
    requires
        node_count >= 1,
    ensures
        dynamic == spec_is_dynamic_node(index as int, node_count as int, payload_held),
{
    index != 0 && !(payload_held && index == payload_index(node_count))
}

/// The dynamic/prescribed flag of every node of a rope.
pub fn dynamic_node_flags(node_count: usize, payload_held: bool) -> (flags: Vec<bool>)
    requires
        node_count >= 1,
    ensures
        flags@.len() == node_count,
        forall|i: int|
            0 <= i < node_count ==> flags@[i] == spec_is_dynamic_node(i, node_count as int, payload_held),
{
    let mut flags: Vec<bool> = Vec::new();
    for index in 0..node_count
        invariant
            node_count >= 1,
            flags@.len() == index,
            forall|i: int|
                0 <= i < index ==> flags@[i] == spec_is_dynamic_node(i, node_count as int, payload_held),
    {
        flags.push(is_dynamic_node(index, node_count, payload_held));
    }
    flags
}

/// Number of dynamic nodes among the first `end` flags.
pub open spec fn dynamic_count(flags: Seq<bool>, end: int) -> nat
    decreases end,
{
    if end <= 0 {
        0
    } else {
        dynamic_count(flags, end - 1) + if flags[end - 1] { 1nat } else { 0nat }
    }
}

/// Dynamic nodes listed in increasing order, and for every node the offset of
/// its first unknown (or `NOT_DYNAMIC`).
pub struct UnknownNumbering {
    pub dynamic_nodes: Vec<usize>,
    pub node_to_unknown: Vec<usize>,
}

impl UnknownNumbering {
    /// `self` is the numbering that the flags `dynamic` determine.
    pub open spec fn numbers(&self, dynamic: Seq<bool>) -> bool {
        &&& self.dynamic_nodes@.len() == dynamic_count(dynamic, dynamic.len() as int)
        &&& forall|k: int|
            #![trigger self.dynamic_nodes@[k]]
            0 <= k < self.dynamic_nodes@.len() ==> {
                &&& self.dynamic_nodes@[k] < dynamic.len()
                &&& dynamic[self.dynamic_nodes@[k] as int]
                &&& dynamic_count(dynamic, self.dynamic_nodes@[k] as int) == k
            }
        &&& self.node_to_unknown@.len() == dynamic.len()
        &&& forall|i: int|
            #![trigger self.node_to_unknown@[i]]
            0 <= i < dynamic.len() ==> self.node_to_unknown@[i] == if dynamic[i] {
                2 * dynamic_count(dynamic, i) as int
            } else {
                NOT_DYNAMIC as int
            }
    }

    /// Number of scalar unknowns of the Newton system.
    pub open spec fn dimension(&self) -> int {
        2 * self.dynamic_nodes@.len() as int
    }
}

/// The count of dynamic nodes never decreases along the rope, and passing a
/// dynamic node increases it.
pub proof fn lemma_dynamic_count_monotone(flags: Seq<bool>, i: int, j: int)
    requires
        0 <= i <= j <= flags.len(),
    ensures
        dynamic_count(flags, i) <= dynamic_count(flags, j),
        i < j && flags[i] ==> dynamic_count(flags, i) < dynamic_count(flags, j),
    decreases j - i,
{
    if i < j {
        lemma_dynamic_count_monotone(flags, i, j - 1);
    }
}

/// Number the unknowns of the nodes whose flag is set, in node order.
pub fn number_unknowns(dynamic: &[bool]) -> (numbering: UnknownNumbering)
    requires
        dynamic@.len() <= usize::MAX / 2,
    ensures
        numbering.numbers(dynamic@),
{
    let node_count = dynamic.len();
    let mut dynamic_nodes: Vec<usize> = Vec::new();
    let mut node_to_unknown: Vec<usize> = Vec::new();
    for index in 0..node_count
        invariant
            node_count == dynamic@.len(),
            node_count <= usize::MAX / 2,
            dynamic_nodes@.len() == dynamic_count(dynamic@, index as int),
            dynamic_nodes@.len() <= index,
            node_to_unknown@.len() == index,
            forall|k: int|
                #![trigger dynamic_nodes@[k]]
                0 <= k < dynamic_nodes@.len() ==> {
                    &&& dynamic_nodes@[k] < index
                    &&& dynamic@[dynamic_nodes@[k] as int]
                    &&& dynamic_count(dynamic@, dynamic_nodes@[k] as int) == k
                },
            forall|i: int|
                #![trigger node_to_unknown@[i]]
                0 <= i < index ==> node_to_unknown@[i] == if dynamic@[i] {
                    2 * dynamic_count(dynamic@, i) as int
                } else {
                    NOT_DYNAMIC as int
                },
    {
        if dynamic[index] {
            node_to_unknown.push(2 * dynamic_nodes.len());
            dynamic_nodes.push(index);
        } else {
            node_to_unknown.push(NOT_DYNAMIC);
        }
    }
    UnknownNumbering { dynamic_nodes, node_to_unknown }
}

/// The numbering is a bijection: the `k`-th dynamic node owns unknowns `2k`
/// and `2k + 1`, every flagged node is listed, the list is strictly
/// increasing, and the marker for prescribed nodes is never a valid offset.
pub proof fn lemma_numbering_is_bijective(dynamic: Seq<bool>, numbering: UnknownNumbering)
    requires
        numbering.numbers(dynamic),
    ensures
        forall|k: int|
            0 <= k < numbering.dynamic_nodes@.len() ==> numbering.node_to_unknown@[
                numbering.dynamic_nodes@[k] as int] == 2 * k,
        forall|i: int|
            0 <= i < dynamic.len() && dynamic[i] ==> {
                let k = dynamic_count(dynamic, i) as int;
                &&& 0 <= k < numbering.dynamic_nodes@.len()
                &&& numbering.dynamic_nodes@[k] == i
            },
        forall|k1: int, k2: int|
            0 <= k1 < k2 < numbering.dynamic_nodes@.len() ==> numbering.dynamic_nodes@[k1]
                < numbering.dynamic_nodes@[k2],
        forall|i: int|
            0 <= i < dynamic.len() && dynamic[i] ==> {
                &&& numbering.node_to_unknown@[i] + 1 < numbering.dimension()
                &&& numbering.node_to_unknown@[i] != NOT_DYNAMIC
            },
{
    let n = dynamic.len() as int;
    let dn = numbering.dynamic_nodes@;
    assert forall|k1: int, k2: int| 0 <= k1 < k2 < dn.len() implies dn[k1] < dn[k2] by {
        let a = dn[k1] as int;
        let b = dn[k2] as int;
        if b <= a {
            lemma_dynamic_count_monotone(dynamic, b, a);
        }
    }
    assert forall|i: int| 0 <= i < n && dynamic[i] implies {
        let k = dynamic_count(dynamic, i) as int;
        &&& 0 <= k < dn.len()
        &&& dn[k] == i
    } by {
        let k = dynamic_count(dynamic, i) as int;
        lemma_dynamic_count_monotone(dynamic, i, n);
        let j = dn[k] as int;
        if j < i {
            lemma_dynamic_count_monotone(dynamic, j, i);
        } else if i < j {
            lemma_dynamic_count_monotone(dynamic, i, j);
        }
    }
    assert forall|i: int| 0 <= i < n && dynamic[i] implies {
        &&& numbering.node_to_unknown@[i] + 1 < numbering.dimension()
        &&& numbering.node_to_unknown@[i] != NOT_DYNAMIC
    } by {
        lemma_dynamic_count_monotone(dynamic, i, n);
        assert(numbering.node_to_unknown@[i] == 2 * dynamic_count(dynamic, i));
        assert(NOT_DYNAMIC as int % 2 == 1);
    }
}

/// In a rope of at least two nodes the anchor is never dynamic, interior
/// nodes always are, the payload is dynamic exactly when it is released, and
/// the Newton system has two unknowns per dynamic node.
pub proof fn lemma_rope_unknown_count(node_count: nat, payload_held: bool)
    requires
        node_count >= 2,
    ensures
        !spec_is_dynamic_node(0, node_count as int, payload_held),
        spec_is_dynamic_node(node_count - 1, node_count as int, payload_held) == !payload_held,
        forall|i: int| 0 < i < node_count - 1 ==> spec_is_dynamic_node(i, node_count as int, payload_held),
        dynamic_count(
            Seq::new(node_count, |i: int| spec_is_dynamic_node(i, node_count as int, payload_held)),
            node_count as int,
        ) == if payload_held { node_count - 2 } else { node_count - 1 },
{
    let flags = Seq::new(node_count, |i: int| spec_is_dynamic_node(i, node_count as int, payload_held));
    let n = node_count as int;
    lemma_interior_count_up(flags, n, payload_held, n - 1);
    assert(dynamic_count(flags, n) == dynamic_count(flags, n - 1) + if flags[n - 1] { 1nat } else { 0nat });
}

proof fn lemma_interior_count_up(flags: Seq<bool>, node_count: int, payload_held: bool, end: int)
    requires
        node_count >= 2,
        flags.len() == node_count,
        forall|i: int| 0 <= i < node_count ==> flags[i] == spec_is_dynamic_node(i, node_count, payload_held),
        1 <= end <= node_count - 1,
    ensures
        dynamic_count(flags, end) == end - 1,
    decreases end,
{
    if end > 1 {
        lemma_interior_count_up(flags, node_count, payload_held, end - 1);
    } else {
        assert(dynamic_count(flags, 0) == 0);
    }
}

/// Number of nodes the position-based projection used during manipulation
/// solves for: the nodes after the anchor, excluding a held payload. They are
/// numbered `node - 1`.
pub fn projection_unknown_count(node_count: usize, payload_is_held: bool) -> (count: usize)
    ensures
        count == if payload_is_held {
            if node_count >= 2 { node_count - 2 } else { 0 }
        } else {
            if node_count >= 1 { node_count - 1 } else { 0 }
        },
{
    let payload = node_count.saturating_sub(1);
    let dynamic_end = if payload_is_held { payload } else { payload + 1 };
    dynamic_end.saturating_sub(1)
}

/// The projection's local numbering agrees with the Newton numbering: it
/// solves for exactly the dynamic nodes, and node `k` owns the Newton
/// unknowns starting at `2 * (k - 1)`.
pub proof fn lemma_projection_matches_newton_numbering(node_count: nat, payload_is_held: bool, node: int)
    requires
        node_count >= 2,
        1 <= node < node_count,
        spec_is_dynamic_node(node, node_count as int, payload_is_held),
    ensures
        ({
            let flags = Seq::new(
                node_count,
                |i: int| spec_is_dynamic_node(i, node_count as int, payload_is_held),
            );
            &&& dynamic_count(flags, node) == node - 1
            &&& dynamic_count(flags, node_count as int) == if payload_is_held {
                node_count - 2
            } else {
                node_count - 1
            }
        }),
{
    let flags = Seq::new(node_count, |i: int| spec_is_dynamic_node(i, node_count as int, payload_is_held));
    lemma_rope_unknown_count(node_count, payload_is_held);
    lemma_interior_count_up(flags, node_count as int, payload_is_held, node);
}

} // verus!
