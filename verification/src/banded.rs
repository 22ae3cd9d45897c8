//! Storage layout of the banded Newton matrices.
//!
//! The position-only Newton system couples each dynamic node with its
//! nearest and second-nearest neighbours, so its 2x2 blocks form a block
//! pentadiagonal matrix; the first-order system uses a block tridiagonal one.
//! Each band is stored as its own array, and an entry `(row_block,
//! column_block)` lives in exactly one slot of one band.

use vstd::prelude::*;
use crate::numbering::{UnknownNumbering, NOT_DYNAMIC, dynamic_count, lemma_dynamic_count_monotone};

verus! {

/// One stored band of a block-banded matrix.
#[derive(Clone, Copy, Debug, PartialEq, Eq, Structural)]
pub enum Band {
    Diagonal,
    Lower,
    Upper,
    SecondLower,
    SecondUpper,
}

/// A position in band storage: the band and the index of the block in it.
#[derive(Clone, Copy, Debug, PartialEq, Eq, Structural)]
pub struct BandSlot {
    pub band: Band,
    pub index: usize,
}

pub open spec fn spec_band_length(band: Band, block_count: int) -> int {
    match band {
        Band::Diagonal => block_count,
        Band::Lower | Band::Upper => if block_count >= 1 { block_count - 1 } else { 0 },
        Band::SecondLower | Band::SecondUpper => if block_count >= 2 { block_count - 2 } else { 0 },
    }
}

/// Number of blocks stored in `band` for a matrix of `block_count` block rows.
pub fn band_length(band: Band, block_count: usize) -> (length: usize)
    ensures
        length == spec_band_length(band, block_count as int),
{
    match band {
        Band::Diagonal => block_count,
        Band::Lower | Band::Upper => block_count.saturating_sub(1),
        Band::SecondLower | Band::SecondUpper => block_count.saturating_sub(2),
    }
}

pub open spec fn spec_tridiagonal_slot(row_block: int, column_block: int) -> Option<BandSlot> {
    if row_block == column_block {
        Some(BandSlot { band: Band::Diagonal, index: row_block as usize })
    } else if row_block == column_block + 1 {
        Some(BandSlot { band: Band::Lower, index: column_block as usize })
    } else if column_block == row_block + 1 {
        Some(BandSlot { band: Band::Upper, index: row_block as usize })
    } else {
        None
    }
}

pub open spec fn spec_pentadiagonal_slot(row_block: int, column_block: int) -> Option<BandSlot> {
    if row_block == column_block + 2 {
        Some(BandSlot { band: Band::SecondLower, index: column_block as usize })
    } else if column_block == row_block + 2 {
        Some(BandSlot { band: Band::SecondUpper, index: row_block as usize })
    } else {
        spec_tridiagonal_slot(row_block, column_block)
    }
}

/// Slot of block `(row_block, column_block)` in a block tridiagonal matrix,
/// or `None` when the entry lies outside the band.
pub fn tridiagonal_slot(row_block: usize, column_block: usize) -> (slot: Option<BandSlot>)
    ensures
        slot == spec_tridiagonal_slot(row_block as int, column_block as int),
{
    if row_block == column_block {
        Some(BandSlot { band: Band::Diagonal, index: row_block })
    } else if row_block > column_block && row_block - column_block == 1 {
        Some(BandSlot { band: Band::Lower, index: column_block })
    } else if column_block > row_block && column_block - row_block == 1 {
        Some(BandSlot { band: Band::Upper, index: row_block })
    } else {
        None
    }
}

/// Slot of block `(row_block, column_block)` in a block pentadiagonal
/// matrix, or `None` when the entry lies outside the band.
pub fn pentadiagonal_slot(row_block: usize, column_block: usize) -> (slot: Option<BandSlot>)
    ensures
        slot == spec_pentadiagonal_slot(row_block as int, column_block as int),
{
    if row_block > column_block && row_block - column_block == 2 {
        Some(BandSlot { band: Band::SecondLower, index: column_block })
    } else if column_block > row_block && column_block - row_block == 2 {
        Some(BandSlot { band: Band::SecondUpper, index: row_block })
    } else {
        tridiagonal_slot(row_block, column_block)
    }
}

/// Where an acceleration Jacobian block between two rope nodes goes in the
/// pentadiagonal Newton matrix.
#[derive(Clone, Copy, Debug, PartialEq, Eq, Structural)]
pub enum BlockPlacement {
    /// One of the nodes owns no unknowns, so the block does not enter the system.
    Skipped,
    /// The block is accumulated into this slot.
    Placed(BandSlot),
    /// The coupling is wider than the band; the factorization reports the
    /// system as singular.
    OutsideBand,
}

pub open spec fn spec_place_block(node_to_unknown: Seq<usize>, row_node: int, column_node: int) -> BlockPlacement {
    let row_offset = node_to_unknown[row_node];
    let column_offset = node_to_unknown[column_node];
    if row_offset == NOT_DYNAMIC || column_offset == NOT_DYNAMIC {
        BlockPlacement::Skipped
    } else {
        match spec_pentadiagonal_slot(row_offset as int / 2, column_offset as int / 2) {
            Some(slot) => BlockPlacement::Placed(slot),
            None => BlockPlacement::OutsideBand,
        }
    }
}

/// Locate the Jacobian block coupling `row_node` to `column_node`.
pub fn place_jacobian_block(node_to_unknown: &[usize], row_node: usize, column_node: usize) -> (placement: BlockPlacement)
    requires
        row_node < node_to_unknown@.len(),
        column_node < node_to_unknown@.len(),
    ensures
        placement == spec_place_block(node_to_unknown@, row_node as int, column_node as int),
{
    let row_offset = node_to_unknown[row_node];
    let column_offset = node_to_unknown[column_node];
    if row_offset == NOT_DYNAMIC || column_offset == NOT_DYNAMIC {
        BlockPlacement::Skipped
    } else {
        match pentadiagonal_slot(row_offset / 2, column_offset / 2) {
            Some(slot) => BlockPlacement::Placed(slot),
            None => BlockPlacement::OutsideBand,
        }
    }
}

/// The pentadiagonal band holds exactly the entries at most two blocks off
/// the diagonal, and agrees with the tridiagonal layout on the entries both
/// can store.
pub proof fn lemma_band_membership(row_block: int, column_block: int)
    requires
        row_block >= 0,
        column_block >= 0,
    ensures
        spec_pentadiagonal_slot(row_block, column_block) is Some <==> -2 <= row_block - column_block <= 2,
        spec_tridiagonal_slot(row_block, column_block) is Some <==> -1 <= row_block - column_block <= 1,
        spec_tridiagonal_slot(row_block, column_block) is Some ==> spec_pentadiagonal_slot(row_block, column_block)
            == spec_tridiagonal_slot(row_block, column_block),
{
}

/// Every in-band entry of an `n`-block matrix maps into the storage of its
/// band, and no two entries share a slot.
pub proof fn lemma_slots_in_range_and_distinct(block_count: int, r1: int, c1: int, r2: int, c2: int)
    requires
        0 <= r1 < block_count,
        0 <= c1 < block_count,
        0 <= r2 < block_count,
        0 <= c2 < block_count,
        block_count <= usize::MAX,
    ensures
        spec_pentadiagonal_slot(r1, c1) matches Some(slot) ==> slot.index < spec_band_length(slot.band, block_count),
        spec_pentadiagonal_slot(r1, c1) is Some && spec_pentadiagonal_slot(r1, c1) == spec_pentadiagonal_slot(r2, c2)
            ==> r1 == r2 && c1 == c2,
{
}

/// With the unknowns numbered from the dynamic-node flags, a Jacobian block
/// between two dynamic nodes at most two nodes apart (an axial or a bending
/// coupling) always lands inside the pentadiagonal band, at block position
/// `(rank(row_node), rank(column_node))`.
pub proof fn lemma_neighbour_couplings_fit_the_band(
    dynamic: Seq<bool>,
    numbering: UnknownNumbering,
    row_node: int,
    column_node: int,
)
    requires
        numbering.numbers(dynamic),
        0 <= row_node < dynamic.len(),
        0 <= column_node < dynamic.len(),
        dynamic[row_node],
        dynamic[column_node],
        -2 <= row_node - column_node <= 2,
    ensures
        spec_place_block(numbering.node_to_unknown@, row_node, column_node) == BlockPlacement::Placed(
            spec_pentadiagonal_slot(
                dynamic_count(dynamic, row_node) as int,
                dynamic_count(dynamic, column_node) as int,
            ).unwrap(),
        ),
{
    let n2u = numbering.node_to_unknown@;
    let rr = dynamic_count(dynamic, row_node) as int;
    let cc = dynamic_count(dynamic, column_node) as int;
    assert(n2u[row_node] == 2 * rr);
    assert(n2u[column_node] == 2 * cc);
    assert(NOT_DYNAMIC as int % 2 == 1);
    if row_node <= column_node {
        lemma_dynamic_count_steps(dynamic, row_node, column_node);
    } else {
        lemma_dynamic_count_steps(dynamic, column_node, row_node);
    }
    assert(-2 <= rr - cc <= 2);
    assert(n2u[row_node] as int / 2 == rr);
    assert(n2u[column_node] as int / 2 == cc);
}

/// Between two nodes the dynamic count grows by at most one per node.
pub proof fn lemma_dynamic_count_steps(flags: Seq<bool>, i: int, j: int)
    requires
        0 <= i <= j <= flags.len(),
    ensures
        0 <= dynamic_count(flags, j) - dynamic_count(flags, i) <= j - i,
    decreases j - i,
{
    if i < j {
        lemma_dynamic_count_steps(flags, i, j - 1);
    }
    lemma_dynamic_count_monotone(flags, i, j);
}

/// A bending stencil couples a vertex with its two neighbours, so between
/// the unknowns `node - 1` of the nodes `center - 1`, `center`, `center + 1`
/// every coupling from an earlier to a later node lies on the first or
/// second upper band.
pub proof fn lemma_bending_stencil_has_bandwidth_two(center: int, a: int, b: int)
    requires
        2 <= center < usize::MAX,
        0 <= a < b < 3,
    ensures
        ({
            let row = center - 1 + a - 1;
            let column = center - 1 + b - 1;
            &&& spec_pentadiagonal_slot(row, column) is Some
            &&& spec_pentadiagonal_slot(row, column).unwrap().band == Band::Upper
                || spec_pentadiagonal_slot(row, column).unwrap().band == Band::SecondUpper
            &&& spec_pentadiagonal_slot(row, column).unwrap().index == row
        }),
{
}

/// A block enters the Newton system only when both of its nodes own
/// unknowns: a coupling to a prescribed node (the anchor or a held payload)
/// is always skipped, whichever side it is on. A coupling between two
/// dynamic nodes is placed exactly when their unknown blocks are at most two
/// apart, and then lands at those blocks' slot.
pub proof fn lemma_blocks_with_a_prescribed_node_are_skipped(
    node_to_unknown: Seq<usize>,
    row_node: int,
    column_node: int,
)
    requires
        0 <= row_node < node_to_unknown.len(),
        0 <= column_node < node_to_unknown.len(),
    ensures
        node_to_unknown[row_node] == NOT_DYNAMIC || node_to_unknown[column_node] == NOT_DYNAMIC
            ==> spec_place_block(node_to_unknown, row_node, column_node) == BlockPlacement::Skipped,
        node_to_unknown[row_node] != NOT_DYNAMIC && node_to_unknown[column_node] != NOT_DYNAMIC ==> {
            let r = node_to_unknown[row_node] / 2;
            let c = node_to_unknown[column_node] / 2;
            &&& (spec_place_block(node_to_unknown, row_node, column_node) == BlockPlacement::OutsideBand
                <==> !(-2 <= r - c <= 2))
            &&& -2 <= r - c <= 2 ==> spec_place_block(node_to_unknown, row_node, column_node)
                == BlockPlacement::Placed(spec_pentadiagonal_slot(r as int, c as int).unwrap())
        },
{
}

} // verus!
