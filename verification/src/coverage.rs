use crate::error::{GeopropError, ItmError};
use crate::hex::{
    edge_length_mm, grid_ring, hex_grid_distance, hex_ring, is_hex_cell, is_valid_cell,
    spec_edge_length_mm,
};
use crate::itm::{is_request, Itm, ModelInput};
use crate::profile::Profile;
use vstd::arithmetic::div_mod::lemma_multiply_divide_lt;
use vstd::prelude::*;

verus! {

/// One per-cell outcome of a coverage estimate: the cell, the terrain
/// elevation at the cell, and the propagation attenuation in
/// millidecibels. Never mutated after creation.
#[derive(Clone, Copy, Debug, PartialEq, Eq, Structural)]
pub struct CoverageSample {
    pub cell_id: u64,
    pub terrain_elev_mm: i64,
    pub atten_mdb: i64,
}

/// What the coverage estimator decides for one cell once its terrain
/// profile is known: a degenerate (zero-length) path is answered
/// directly with zero attenuation, and any longer path becomes one
/// model request.
#[derive(Clone, Debug, PartialEq)]
pub enum CellStep {
    /// The sample is complete; the loss model is not invoked.
    Ready(CoverageSample),
    /// The loss model must be evaluated on this request.
    Evaluate(ModelInput),
}

/// The largest ring index `r` with `r <= max_radius / (edge * sqrt(3))`,
/// with `sqrt(3)` fixed at the estimator's constant 1.7320508: consecutive
/// hex rings grow outward by about `edge * sqrt(3)` along their radial
/// direction, so this converts a straight-line radius bound into a
/// ring-count bound. Ring 0 is the center cell itself.
pub open spec fn spec_ring_bound(max_radius_mm: nat, edge_mm: nat) -> nat {
    if edge_mm == 0 {
        0
    } else {
        (max_radius_mm * 10_000_000) / (edge_mm * 17_320_508)
    }
}

/// Computes the ring-count bound for a radius and an edge length.
pub fn ring_bound(max_radius_mm: u64, edge_mm: u64) -> (r: u64)
    requires
        max_radius_mm <= 1_000_000_000_000,
        edge_mm <= 2_000_000_000,
    ensures
        r == spec_ring_bound(max_radius_mm as nat, edge_mm as nat),
{
    if edge_mm == 0 {
        0
    } else {
        (max_radius_mm * 10_000_000) / (edge_mm * 17_320_508)
    }
}

/// All cells visited by a coverage estimate: the rings from 0 through
/// `rmax`, ring by ring.
pub open spec fn spec_plan_cells(cell: u64, rmax: nat) -> Seq<u64>
    decreases rmax,
{
    if rmax == 0 {
        hex_ring(cell, 0)
    } else {
        spec_plan_cells(cell, (rmax - 1) as nat) + hex_ring(cell, rmax)
    }
}

/// Expands the hex ring search outward from the transmitter's cell:
/// every ring of cells within the ring-count bound for `max_radius_mm`
/// at grid resolution `res`, ring by ring. The visited cells are
/// pairwise distinct: rings at different distances are disjoint and each
/// ring is duplicate-free. For a zero radius only ring 0 — the center
/// cell itself — is visited. A value that is no cell identifier fails
/// fast with `None`.
///
/// Resolutions above 15 are rejected by the precondition, and the
/// radius bound is a machine limit that keeps the ring arithmetic
/// within 64 bits.
pub fn coverage_cells(center_cell: u64, res: u8, max_radius_mm: u64) -> (r: Option<Vec<u64>>)
    requires
        res <= 15,
        max_radius_mm <= 1_000_000_000_000,
    ensures
        r is Some <==> is_hex_cell(center_cell),
        r matches Some(cells) ==> {
            &&& cells@ == spec_plan_cells(
                center_cell,
                spec_ring_bound(max_radius_mm as nat, spec_edge_length_mm(res as int) as nat),
            )
            &&& forall|i: int| 0 <= i < cells@.len() ==> is_hex_cell(#[trigger] cells@[i])
            &&& forall|i: int, j: int| 0 <= i < j < cells@.len() ==> cells@[i] != cells@[j]
            &&& max_radius_mm == 0 ==> cells@ == seq![center_cell]
        },
{
    if !is_valid_cell(center_cell) {
        return None;
    }
    let cell = center_cell;
    let edge = edge_length_mm(res);
    let rmax = ring_bound(max_radius_mm, edge);
    proof {
        lemma_multiply_divide_lt(
            (max_radius_mm as int) * 10_000_000,
            (edge as int) * 17_320_508,
            1_000_000_000,
        );
        assert(rmax < 1_000_000_000);
    }
    let mut cells: Vec<u64> = Vec::new();
    let mut k: u64 = 0;
    while k <= rmax
        invariant
            0 <= k <= rmax + 1,
            rmax < 1_000_000_000,
            is_hex_cell(cell),
            forall|i: int| 0 <= i < cells@.len() ==> is_hex_cell(#[trigger] cells@[i]),
            forall|i: int|
                0 <= i < cells@.len() ==> hex_grid_distance(cell, #[trigger] cells@[i]) < k,
            forall|i: int, j: int| 0 <= i < j < cells@.len() ==> cells@[i] != cells@[j],
            k == 0 ==> cells@ == Seq::<u64>::empty(),
            k >= 1 ==> cells@ == spec_plan_cells(cell, (k - 1) as nat),
            k >= 1 ==> hex_ring(cell, 0) == seq![cell],
        decreases rmax + 1 - k,
    {
        let mut ring = grid_ring(cell, k as u32);
        let ghost cells0 = cells@;
        let ghost ringv = ring@;
        cells.append(&mut ring);
        proof {
            assert(cells@ == cells0 + ringv);
            let n0 = cells0.len() as int;
            assert forall|i: int, j: int| 0 <= i < j < cells@.len() implies cells@[i]
                != cells@[j] by {
                if j < n0 {
                    assert(cells0[i] != cells0[j]);
                } else if i >= n0 {
                    assert(ringv[i - n0] != ringv[j - n0]);
                } else {
                    assert(hex_grid_distance(cell, cells0[i]) < k);
                    assert(hex_grid_distance(cell, ringv[j - n0]) == k as nat);
                }
            }
            if k == 0 {
                assert(cells0 =~= Seq::<u64>::empty());
                assert(cells@ =~= hex_ring(cell, 0));
                assert(cells@ == spec_plan_cells(cell, 0));
            } else {
                assert(cells@ == spec_plan_cells(cell, (k - 1) as nat) + hex_ring(
                    cell,
                    k as nat,
                ));
                assert(cells@ == spec_plan_cells(cell, k as nat));
            }
        }
        k = k + 1;
    }
    proof {
        if max_radius_mm == 0 {
            assert(spec_ring_bound(0, edge as nat) == 0) by {
                if edge != 0 {
                    assert((0 * 10_000_000) as nat / ((edge as nat) * 17_320_508) == 0);
                }
            }
            assert(rmax == 0);
            assert(cells@ == hex_ring(cell, 0));
            assert(cells@ == seq![cell]);
        }
    }
    Some(cells)
}

impl Itm {
    /// The coverage estimator's decision for one cell once its profile
    /// is known. A profile that degenerates to a single sample — the
    /// endpoints coincide or are closer than one sampling step — is
    /// short-circuited to zero attenuation with the last terrain
    /// elevation, without invoking the loss model; any longer profile
    /// becomes one point-to-point model request.
    pub fn cell_step(&self, cell: u64, profile: &Profile, freq_hz: u64) -> (r: CellStep)
        requires
            profile.wf(),
            freq_hz > 0,
        ensures
            profile.spec_len() == 1 ==> r == CellStep::Ready(
                CoverageSample {
                    cell_id: cell,
                    terrain_elev_mm: profile.terrain_elev_mm@.last(),
                    atten_mdb: 0,
                },
            ),
            profile.spec_len() >= 2 ==> (r matches CellStep::Evaluate(m) && is_request(
                m,
                *self,
                profile.start_alt_mm,
                profile.end_alt_mm,
                profile.distances_mm@[1],
                profile.terrain_elev_mm@,
                freq_hz,
            )),
    {
        if profile.len() <= 1 {
            CellStep::Ready(
                CoverageSample {
                    cell_id: cell,
                    terrain_elev_mm: profile.last_elev_mm(),
                    atten_mdb: 0,
                },
            )
        } else {
            CellStep::Evaluate(self.p2p(profile, freq_hz))
        }
    }
}

/// Turns one cell's model answer into that cell's outcome: the scalar
/// attenuation is recorded with the cell and its last terrain elevation,
/// and a model failure is surfaced verbatim.
pub fn finish_cell(cell: u64, terrain_elev_mm: i64, result: Result<i64, ItmError>) -> (r: Result<
    CoverageSample,
    GeopropError,
>)
    ensures
        result matches Ok(a) ==> r == Ok::<CoverageSample, GeopropError>(
            CoverageSample { cell_id: cell, terrain_elev_mm, atten_mdb: a },
        ),
        result matches Err(e) ==> r == Err::<CoverageSample, GeopropError>(GeopropError::Itm(e)),
{
    match result {
        Ok(a) => Ok(CoverageSample { cell_id: cell, terrain_elev_mm, atten_mdb: a }),
        Err(e) => Err(GeopropError::Itm(e)),
    }
}

/// Whether a successful sample's attenuation passes the receiver
/// sensitivity threshold: with no threshold everything is kept; with a
/// threshold, strictly smaller attenuations only — a value exactly equal
/// to the threshold is excluded, with no epsilon tolerance.
pub open spec fn spec_keeps(threshold_mdb: Option<i64>, atten_mdb: i64) -> bool {
    match threshold_mdb {
        None => true,
        Some(t) => atten_mdb < t,
    }
}

/// The threshold predicate on whole samples.
pub open spec fn keeps_pred(threshold_mdb: Option<i64>) -> spec_fn(CoverageSample) -> bool {
    |s: CoverageSample| spec_keeps(threshold_mdb, s.atten_mdb)
}

/// The successful samples that the threshold keeps, in input order.
pub open spec fn spec_filtered(samples: Seq<CoverageSample>, threshold_mdb: Option<i64>) -> Seq<
    CoverageSample,
> {
    samples.filter(keeps_pred(threshold_mdb))
}

/// The successful outcomes of a sequence in which every outcome
/// succeeded.
pub open spec fn spec_oks(s: Seq<Result<CoverageSample, GeopropError>>) -> Seq<CoverageSample>
    decreases s.len(),
{
    if s.len() == 0 {
        Seq::empty()
    } else {
        match s.last() {
            Ok(c) => spec_oks(s.drop_last()).push(c),
            Err(_) => spec_oks(s.drop_last()),
        }
    }
}

/// Consolidates all per-cell outcomes of a coverage estimate. Every
/// outcome succeeded: the samples that pass the threshold are returned,
/// in input order. Any outcome failed: the whole estimate aborts with
/// the first failure in input order — the threshold never filters a
/// failure out.
pub fn consolidate(
    outcomes: &Vec<Result<CoverageSample, GeopropError>>,
    rx_threshold_mdb: Option<i64>,
) -> (r: Result<Vec<CoverageSample>, GeopropError>)
    ensures
        (forall|i: int| 0 <= i < outcomes@.len() ==> (#[trigger] outcomes@[i]) is Ok) ==> r is Ok,
        r matches Ok(v) ==> (forall|i: int|
            0 <= i < outcomes@.len() ==> (#[trigger] outcomes@[i]) is Ok) && v@ == spec_filtered(
            spec_oks(outcomes@),
            rx_threshold_mdb,
        ),
        r matches Err(e) ==> exists|j: int|
            {
                &&& 0 <= j < outcomes@.len()
                &&& #[trigger] outcomes@[j] matches Err(e0) && e == e0
                &&& forall|i: int| 0 <= i < j ==> outcomes@[i] is Ok
            },
{
    let mut v: Vec<CoverageSample> = Vec::new();
    let mut i: usize = 0;
    while i < outcomes.len()
        invariant
            0 <= i <= outcomes@.len(),
            forall|t: int| 0 <= t < i ==> (#[trigger] outcomes@[t]) is Ok,
            v@ == spec_filtered(spec_oks(outcomes@.take(i as int)), rx_threshold_mdb),
        decreases outcomes@.len() - i,
    {
        proof {
            reveal(Seq::filter);
            assert(outcomes@.take(i + 1).drop_last() =~= outcomes@.take(i as int));
            assert(outcomes@.take(i + 1).last() == outcomes@[i as int]);
        }
        match outcomes[i] {
            Ok(s) => {
                proof {
                    let prev = spec_oks(outcomes@.take(i as int));
                    assert(spec_oks(outcomes@.take(i + 1)) == prev.push(s));
                    assert(prev.push(s).drop_last() =~= prev);
                    assert(prev.push(s).last() == s);
                }
                let keep: bool = match rx_threshold_mdb {
                    None => true,
                    Some(t) => s.atten_mdb < t,
                };
                if keep {
                    v.push(s);
                }
            },
            Err(e) => {
                proof {
                    let j: int = i as int;
                    assert({
                        &&& 0 <= j < outcomes@.len()
                        &&& outcomes@[j] matches Err(e0) && e == e0
                        &&& forall|t: int| 0 <= t < j ==> outcomes@[t] is Ok
                    });
                }
                return Err(e);
            },
        }
        i = i + 1;
    }
    proof {
        assert(outcomes@.take(outcomes@.len() as int) =~= outcomes@);
    }
    Ok(v)
}

/// Every element of a filtered sequence occurs in the original.
proof fn lemma_filter_in_original<A>(s: Seq<A>, pred: spec_fn(A) -> bool, i: int)
    requires
        0 <= i < s.filter(pred).len(),
    ensures
        s.contains(s.filter(pred)[i]),
    decreases s.len(),
{
    reveal(Seq::filter);
    if s.len() > 0 {
        let g = s.drop_last().filter(pred);
        if pred(s.last()) && i == g.len() {
            assert(s.filter(pred)[i] == s.last());
            assert(s[s.len() - 1] == s.last());
        } else {
            lemma_filter_in_original(s.drop_last(), pred, i);
            let x = s.drop_last().filter(pred)[i];
            let k = choose|k: int| 0 <= k < s.drop_last().len() && s.drop_last()[k] == x;
            assert(s[k] == x);
        }
    }
}

/// Threshold filtering is monotonic: raising the receiver threshold
/// never removes a sample that a lower threshold kept.
pub proof fn lemma_threshold_monotonic(samples: Seq<CoverageSample>, t1: i64, t2: i64)
    requires
        t1 <= t2,
    ensures
        forall|i: int|
            0 <= i < spec_filtered(samples, Some(t1)).len() ==> spec_filtered(
                samples,
                Some(t2),
            ).contains(#[trigger] spec_filtered(samples, Some(t1))[i]),
{
    let f1 = spec_filtered(samples, Some(t1));
    assert forall|i: int| 0 <= i < f1.len() implies spec_filtered(samples, Some(t2)).contains(
        f1[i],
    ) by {
        lemma_filter_in_original(samples, keeps_pred(Some(t1)), i);
        Seq::lemma_filter_pred(samples, keeps_pred(Some(t1)), i);
        let x = f1[i];
        let k = choose|k: int| 0 <= k < samples.len() && samples[k] == x;
        assert(keeps_pred(Some(t2))(samples[k]));
        Seq::lemma_filter_contains(samples, keeps_pred(Some(t2)), k);
    }
}

/// With no threshold nothing is filtered: the successful samples are
/// returned whole.
pub proof fn lemma_no_threshold_keeps_all(samples: Seq<CoverageSample>)
    ensures
        spec_filtered(samples, None) == samples,
    decreases samples.len(),
{
    reveal(Seq::filter);
    if samples.len() > 0 {
        lemma_no_threshold_keeps_all(samples.drop_last());
        assert(spec_filtered(samples, None) =~= samples);
    } else {
        assert(spec_filtered(samples, None) =~= samples);
    }
}

/// Providing a threshold reduces (or leaves equal) the count of
/// successful samples compared to providing none.
pub proof fn lemma_threshold_reduces_count(samples: Seq<CoverageSample>, t: i64)
    ensures
        spec_filtered(samples, Some(t)).len() <= spec_filtered(samples, None).len(),
{
    Seq::lemma_filter_len(samples, keeps_pred(Some(t)));
    lemma_no_threshold_keeps_all(samples);
}

/// Failure outcomes are unaffected by the threshold: consolidation
/// aborts with the first failure in input order whatever the threshold,
/// so two consolidations of the same outcomes that both failed report
/// the same error.
pub proof fn lemma_first_failure_unique(
    outcomes: Seq<Result<CoverageSample, GeopropError>>,
    e1: GeopropError,
    e2: GeopropError,
)
    requires
        exists|j: int|
            {
                &&& 0 <= j < outcomes.len()
                &&& #[trigger] outcomes[j] matches Err(e0) && e1 == e0
                &&& forall|i: int| 0 <= i < j ==> outcomes[i] is Ok
            },
        exists|j: int|
            {
                &&& 0 <= j < outcomes.len()
                &&& #[trigger] outcomes[j] matches Err(e0) && e2 == e0
                &&& forall|i: int| 0 <= i < j ==> outcomes[i] is Ok
            },
    ensures
        e1 == e2,
{
    let j1 = choose|j: int|
        {
            &&& 0 <= j < outcomes.len()
            &&& #[trigger] outcomes[j] matches Err(e0) && e1 == e0
            &&& forall|i: int| 0 <= i < j ==> outcomes[i] is Ok
        };
    let j2 = choose|j: int|
        {
            &&& 0 <= j < outcomes.len()
            &&& #[trigger] outcomes[j] matches Err(e0) && e2 == e0
            &&& forall|i: int| 0 <= i < j ==> outcomes[i] is Ok
        };
    if j1 < j2 {
        assert(outcomes[j1] is Ok);
    } else if j2 < j1 {
        assert(outcomes[j2] is Ok);
    }
}

} // verus!
