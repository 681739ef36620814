use h3o::CellIndex;
use vstd::prelude::*;

verus! {

/// Whether a 64-bit value is a valid hex-grid cell identifier.
pub uninterp spec fn is_hex_cell(cell: u64) -> bool;

/// The ring of cells at exact grid distance `k` from a cell, in the
/// order the grid library enumerates it.
pub uninterp spec fn hex_ring(cell: u64, k: nat) -> Seq<u64>;

/// The grid distance between two cells: the minimal number of hex steps
/// from one to the other, as the grid library's distance function
/// (`CellIndex::grid_distance`) defines it.
pub uninterp spec fn hex_grid_distance(cell: u64, other: u64) -> nat;

/// Relies on h3o's `CellIndex::try_from(u64)`: whether a 64-bit value is
/// a valid cell identifier depends on the value alone.
#[verifier::external_body]
pub(crate) fn is_valid_cell(cell: u64) -> (r: bool)
    ensures
        r == is_hex_cell(cell),
{
    CellIndex::try_from(cell).is_ok()
}

/// Relies on h3o's `CellIndex::grid_ring`, the total ring enumeration:
/// it tries the fast ring walk and, when that walk meets a pentagon
/// distortion, discards it and falls back to the safe breadth-first
/// enumeration. The ring at grid distance `k` depends on the cell and
/// `k` alone; at `k == 0` it is exactly the cell itself; its entries
/// are valid, pairwise distinct cell identifiers, each at grid distance
/// exactly `k` from the origin cell. The bound on `k` keeps the
/// fallback's disk-size computation within the machine's integers.
#[verifier::external_body]
pub(crate) fn grid_ring(cell: u64, k: u32) -> (r: Vec<u64>)
    requires
        is_hex_cell(cell),
        k <= 1_000_000_000,
    ensures
        r@ == hex_ring(cell, k as nat),
        k == 0 ==> r@ == seq![cell],
        forall|i: int| 0 <= i < r@.len() ==> is_hex_cell(#[trigger] r@[i]),
        forall|i: int|
            0 <= i < r@.len() ==> hex_grid_distance(cell, #[trigger] r@[i]) == k as nat,
        forall|i: int, j: int| 0 <= i < j < r@.len() ==> r@[i] != r@[j],
{
    let origin = CellIndex::try_from(cell).unwrap();
    origin.grid_ring::<Vec<CellIndex>>(k).into_iter().map(u64::from).collect()
}

/// The grid's average hexagon edge length at each resolution, in
/// millimeters: the published per-resolution table of the hex grid,
/// truncated to whole millimeters.
pub open spec fn spec_edge_length_mm(res: int) -> u64 {
    if res == 0 {
        1_281_256_010
    } else if res == 1 {
        483_056_839
    } else if res == 2 {
        182_512_956
    } else if res == 3 {
        68_979_221
    } else if res == 4 {
        26_071_759
    } else if res == 5 {
        9_854_090
    } else if res == 6 {
        3_724_532
    } else if res == 7 {
        1_406_475
    } else if res == 8 {
        531_414
    } else if res == 9 {
        200_786
    } else if res == 10 {
        75_863
    } else if res == 11 {
        28_663
    } else if res == 12 {
        10_830
    } else if res == 13 {
        4_092
    } else if res == 14 {
        1_546
    } else {
        584
    }
}

/// The grid's average hexagon edge length at a resolution, in
/// millimeters.
pub fn edge_length_mm(res: u8) -> (r: u64)
    requires
        res <= 15,
    ensures
        r == spec_edge_length_mm(res as int),
        584 <= r <= 1_281_256_010,
{
    if res == 0 {
        1_281_256_010
    } else if res == 1 {
        483_056_839
    } else if res == 2 {
        182_512_956
    } else if res == 3 {
        68_979_221
    } else if res == 4 {
        26_071_759
    } else if res == 5 {
        9_854_090
    } else if res == 6 {
        3_724_532
    } else if res == 7 {
        1_406_475
    } else if res == 8 {
        531_414
    } else if res == 9 {
        200_786
    } else if res == 10 {
        75_863
    } else if res == 11 {
        28_663
    } else if res == 12 {
        10_830
    } else if res == 13 {
        4_092
    } else if res == 14 {
        1_546
    } else {
        584
    }
}

} // verus!
