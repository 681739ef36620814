use crate::climate::Climate;
use crate::error::{GeopropError, ItmError};
use crate::mdvar::ModeVariability;
use crate::polarization::Polarization;
use crate::profile::{vec_prefix, Profile};
use rayon::iter::{IntoParallelIterator, ParallelIterator};
use vstd::prelude::*;

verus! {

/// The immutable parameter bundle shared by all loss evaluations:
/// climate class, surface refractivity (thousandths of an N-unit),
/// polarization, ground relative permittivity (thousandths), ground
/// conductivity (thousandths of a S/m), variability mode, and the three
/// statistical confidence percentiles (thousandths of a percent, each
/// expected by the model to lie strictly between 0 and 100 percent).
#[derive(Clone, Copy, Debug, PartialEq, Eq, Structural)]
pub struct Itm {
    pub climate: Climate,
    pub n0_milli: i64,
    pub pol: Polarization,
    pub epsilon_milli: i64,
    pub sigma_milli: i64,
    pub mdvar: ModeVariability,
    pub time_milli: i64,
    pub location_milli: i64,
    pub situation_milli: i64,
}

/// One fully-marshalled request for the external propagation loss model:
/// terminal altitudes, the uniform step size, the terrain elevation
/// sequence, and every model parameter. Evaluating such a request is the
/// model's job; everything the model sees is determined by this value.
#[derive(Clone, Debug, PartialEq)]
pub struct ModelInput {
    pub start_alt_mm: i64,
    pub end_alt_mm: i64,
    pub step_mm: u64,
    pub terrain_elev_mm: Vec<i64>,
    pub climate: Climate,
    pub n0_milli: i64,
    pub freq_hz: u64,
    pub pol: Polarization,
    pub epsilon_milli: i64,
    pub sigma_milli: i64,
    pub mdvar: ModeVariability,
    pub time_milli: i64,
    pub location_milli: i64,
    pub situation_milli: i64,
}

/// What it means for `r` to be exactly the model request that parameters
/// `itm` issue for the given path geometry and frequency.
pub open spec fn is_request(
    r: ModelInput,
    itm: Itm,
    start_alt_mm: i64,
    end_alt_mm: i64,
    step_mm: u64,
    terrain_elev_mm: Seq<i64>,
    freq_hz: u64,
) -> bool {
    &&& r.start_alt_mm == start_alt_mm
    &&& r.end_alt_mm == end_alt_mm
    &&& r.step_mm == step_mm
    &&& r.terrain_elev_mm@ == terrain_elev_mm
    &&& r.climate == itm.climate
    &&& r.n0_milli == itm.n0_milli
    &&& r.freq_hz == freq_hz
    &&& r.pol == itm.pol
    &&& r.epsilon_milli == itm.epsilon_milli
    &&& r.sigma_milli == itm.sigma_milli
    &&& r.mdvar == itm.mdvar
    &&& r.time_milli == itm.time_milli
    &&& r.location_milli == itm.location_milli
    &&& r.situation_milli == itm.situation_milli
}

impl Itm {
    /// Builds a parameter bundle; every omitted parameter takes its
    /// default: continental temperate climate, 301.0 N-units, vertical
    /// polarization, epsilon 15.0, sigma 0.005 S/m, mobile variability,
    /// and 95th percentiles.
    pub fn new(
        climate: Option<Climate>,
        n0_milli: Option<i64>,
        pol: Option<Polarization>,
        epsilon_milli: Option<i64>,
        sigma_milli: Option<i64>,
        mdvar: Option<ModeVariability>,
        time_milli: Option<i64>,
        location_milli: Option<i64>,
        situation_milli: Option<i64>,
    ) -> (r: Itm)
        ensures
            r.climate == climate.unwrap_or(Climate::ContinentalTemperate),
            r.n0_milli == n0_milli.unwrap_or(301_000i64),
            r.pol == pol.unwrap_or(Polarization::Vertical),
            r.epsilon_milli == epsilon_milli.unwrap_or(15_000i64),
            r.sigma_milli == sigma_milli.unwrap_or(5i64),
            r.mdvar == mdvar.unwrap_or(ModeVariability::Mobile),
            r.time_milli == time_milli.unwrap_or(95_000i64),
            r.location_milli == location_milli.unwrap_or(95_000i64),
            r.situation_milli == situation_milli.unwrap_or(95_000i64),
    {
        Itm {
            climate: climate.unwrap_or(Climate::ContinentalTemperate),
            n0_milli: n0_milli.unwrap_or(301_000),
            pol: pol.unwrap_or(Polarization::Vertical),
            epsilon_milli: epsilon_milli.unwrap_or(15_000),
            sigma_milli: sigma_milli.unwrap_or(5),
            mdvar: mdvar.unwrap_or(ModeVariability::Mobile),
            time_milli: time_milli.unwrap_or(95_000),
            location_milli: location_milli.unwrap_or(95_000),
            situation_milli: situation_milli.unwrap_or(95_000),
        }
    }

    /// Point-to-point evaluation: marshals the terminal altitudes, the
    /// uniform step size (the distance of the second sample), the full
    /// terrain elevation sequence, and all parameters into one model
    /// request, for a profile of at least two samples and a positive
    /// frequency. The model's scalar answer passes through [`complete`]
    /// unchanged.
    pub fn p2p(&self, profile: &Profile, freq_hz: u64) -> (r: ModelInput)
        requires
            profile.wf(),
            profile.spec_len() >= 2,
            freq_hz > 0,
        ensures
            is_request(
                r,
                *self,
                profile.start_alt_mm,
                profile.end_alt_mm,
                profile.distances_mm@[1],
                profile.terrain_elev_mm@,
                freq_hz,
            ),
    {
        let n = profile.terrain_elev_mm.len();
        let r = self.prefix_request(profile, n, freq_hz);
        proof {
            assert(profile.terrain_elev_mm@.take(n as int) =~= profile.terrain_elev_mm@);
        }
        r
    }

    /// The model request for the profile as if the path ended at sample
    /// `k - 1`: the terrain prefix of length `k`, with terminal altitudes
    /// and step size fixed from the full profile.
    pub fn prefix_request(&self, profile: &Profile, k: usize, freq_hz: u64) -> (r: ModelInput)
        requires
            profile.wf(),
            2 <= k <= profile.spec_len(),
            freq_hz > 0,
        ensures
            is_request(
                r,
                *self,
                profile.start_alt_mm,
                profile.end_alt_mm,
                profile.distances_mm@[1],
                profile.terrain_elev_mm@.take(k as int),
                freq_hz,
            ),
    {
        ModelInput {
            start_alt_mm: profile.start_alt_mm,
            end_alt_mm: profile.end_alt_mm,
            step_mm: profile.step_mm(),
            terrain_elev_mm: vec_prefix(&profile.terrain_elev_mm, k),
            climate: self.climate,
            n0_milli: self.n0_milli,
            freq_hz,
            pol: self.pol,
            epsilon_milli: self.epsilon_milli,
            sigma_milli: self.sigma_milli,
            mdvar: self.mdvar,
            time_milli: self.time_milli,
            location_milli: self.location_milli,
            situation_milli: self.situation_milli,
        }
    }

    /// Path loss evaluation: one model request per prefix of the terrain
    /// sequence, in input order — entry `i` is the request for the path
    /// as if it ended at sample `i + 1`, so callers can plot loss against
    /// distance. A profile of fewer than two samples has no step size;
    /// such input is rejected by the precondition, mirroring the
    /// point-to-point precondition.
    pub fn path(&self, profile: &Profile, freq_hz: u64) -> (r: Vec<ModelInput>)
        requires
            profile.wf(),
            profile.spec_len() >= 2,
            freq_hz > 0,
        ensures
            r@.len() == profile.spec_len() - 1,
            forall|i: int|
                0 <= i < r@.len() ==> is_request(
                    #[trigger] r@[i],
                    *self,
                    profile.start_alt_mm,
                    profile.end_alt_mm,
                    profile.distances_mm@[1],
                    profile.terrain_elev_mm@.take(i + 2),
                    freq_hz,
                ),
    {
        par_prefix_requests(self, profile, freq_hz)
    }
}

/// Builds the path evaluator's prefix requests in parallel, one per
/// terrain prefix of length 2 ..= n, collected back in index order.
///
/// Relies on rayon: a `map` over an indexed parallel range collected into
/// a `Vec` preserves index order; the closure only calls the verified
/// [`Itm::prefix_request`].
#[verifier::external_body]
fn par_prefix_requests(itm: &Itm, profile: &Profile, freq_hz: u64) -> (r: Vec<ModelInput>)
    requires
        profile.wf(),
        profile.spec_len() >= 2,
        freq_hz > 0,
    ensures
        r@.len() == profile.spec_len() - 1,
        forall|i: int|
            0 <= i < r@.len() ==> is_request(
                #[trigger] r@[i],
                *itm,
                profile.start_alt_mm,
                profile.end_alt_mm,
                profile.distances_mm@[1],
                profile.terrain_elev_mm@.take(i + 2),
                freq_hz,
            ),
{
    (2..=profile.terrain_elev_mm.len())
        .into_par_iter()
        .map(|k| itm.prefix_request(profile, k, freq_hz))
        .collect()
}

/// Completes a point-to-point evaluation: the model's scalar attenuation
/// passes through unchanged, and a model failure is surfaced verbatim as
/// the unified error.
pub fn complete(result: Result<i64, ItmError>) -> (r: Result<i64, GeopropError>)
    ensures
        result matches Ok(a) ==> r == Ok::<i64, GeopropError>(a),
        result matches Err(e) ==> r == Err::<i64, GeopropError>(GeopropError::Itm(e)),
{
    match result {
        Ok(a) => Ok(a),
        Err(e) => Err(GeopropError::Itm(e)),
    }
}

/// Consolidates the path evaluator's per-prefix model answers, in input
/// order. All answers succeed: the losses are returned in the same
/// order. Any answer fails: the whole path evaluation aborts with the
/// first failure, and no partial result is returned.
pub fn collect_path(results: &Vec<Result<i64, ItmError>>) -> (r: Result<Vec<i64>, GeopropError>)
    ensures
        r matches Ok(v) ==> {
            &&& v@.len() == results@.len()
            &&& forall|i: int| 0 <= i < results@.len() ==> results@[i] == Ok::<i64, ItmError>(#[trigger] v@[i])
        },
        r matches Err(e) ==> exists|j: int|
            {
                &&& 0 <= j < results@.len()
                &&& #[trigger] results@[j] matches Err(e0) && e == GeopropError::Itm(e0)
                &&& forall|i: int| 0 <= i < j ==> results@[i] is Ok
            },
        (forall|i: int| 0 <= i < results@.len() ==> results@[i] is Ok) ==> r is Ok,
{
    let mut v: Vec<i64> = Vec::new();
    let mut i: usize = 0;
    while i < results.len()
        invariant
            0 <= i <= results@.len(),
            v@.len() == i,
            forall|j: int| 0 <= j < i ==> results@[j] == Ok::<i64, ItmError>(#[trigger] v@[j]),
        decreases results@.len() - i,
    {
        match results[i] {
            Ok(a) => v.push(a),
            Err(e) => {
                proof {
                    assert forall|t: int| 0 <= t < i implies results@[t] is Ok by {
                        assert(results@[t] == Ok::<i64, ItmError>(v@[t]));
                    }
                    let j: int = i as int;
                    assert({
                        &&& 0 <= j < results@.len()
                        &&& results@[j] matches Err(e0) && GeopropError::Itm(e)
                            == GeopropError::Itm(e0)
                        &&& forall|t: int| 0 <= t < j ==> results@[t] is Ok
                    });
                }
                return Err(GeopropError::Itm(e));
            },
        }
        i = i + 1;
    }
    Ok(v)
}

/// The point-to-point evaluator is a pure function of its inputs: two
/// requests issued for the same profile geometry, parameters, and
/// frequency are identical in every component, so, the model being a
/// function of its request, repeated invocation on identical inputs
/// yields an identical attenuation.
pub proof fn lemma_p2p_deterministic(
    r1: ModelInput,
    r2: ModelInput,
    itm: Itm,
    start_alt_mm: i64,
    end_alt_mm: i64,
    step_mm: u64,
    terrain_elev_mm: Seq<i64>,
    freq_hz: u64,
)
    requires
        is_request(r1, itm, start_alt_mm, end_alt_mm, step_mm, terrain_elev_mm, freq_hz),
        is_request(r2, itm, start_alt_mm, end_alt_mm, step_mm, terrain_elev_mm, freq_hz),
    ensures
        r1.start_alt_mm == r2.start_alt_mm,
        r1.end_alt_mm == r2.end_alt_mm,
        r1.step_mm == r2.step_mm,
        r1.terrain_elev_mm@ == r2.terrain_elev_mm@,
        r1.climate == r2.climate,
        r1.n0_milli == r2.n0_milli,
        r1.freq_hz == r2.freq_hz,
        r1.pol == r2.pol,
        r1.epsilon_milli == r2.epsilon_milli,
        r1.sigma_milli == r2.sigma_milli,
        r1.mdvar == r2.mdvar,
        r1.time_milli == r2.time_milli,
        r1.location_milli == r2.location_milli,
        r1.situation_milli == r2.situation_milli,
{
}

/// Entry `i` of a path evaluation equals the point-to-point request on the
/// profile truncated to its first `i + 2` samples: a profile `q` whose
/// terminal altitudes match `p`'s and whose sequences are `p`'s cut off
/// at `i + 2` (as [`Profile::truncated`] ensures) issues, through the
/// point-to-point evaluator, exactly the request that the path evaluator
/// put at index `i`.
pub proof fn lemma_path_entry_is_p2p(
    m_path: ModelInput,
    m_p2p: ModelInput,
    itm: Itm,
    p: Profile,
    q: Profile,
    freq_hz: u64,
    i: int,
)
    requires
        p.wf(),
        p.spec_len() >= 2,
        0 <= i < p.spec_len() - 1,
        is_request(
            m_path,
            itm,
            p.start_alt_mm,
            p.end_alt_mm,
            p.distances_mm@[1],
            p.terrain_elev_mm@.take(i + 2),
            freq_hz,
        ),
        q.start_alt_mm == p.start_alt_mm,
        q.end_alt_mm == p.end_alt_mm,
        q.distances_mm@ == p.distances_mm@.take(i + 2),
        q.terrain_elev_mm@ == p.terrain_elev_mm@.take(i + 2),
        is_request(
            m_p2p,
            itm,
            q.start_alt_mm,
            q.end_alt_mm,
            q.distances_mm@[1],
            q.terrain_elev_mm@,
            freq_hz,
        ),
    ensures
        m_path.start_alt_mm == m_p2p.start_alt_mm,
        m_path.end_alt_mm == m_p2p.end_alt_mm,
        m_path.step_mm == m_p2p.step_mm,
        m_path.terrain_elev_mm@ == m_p2p.terrain_elev_mm@,
        m_path.climate == m_p2p.climate,
        m_path.n0_milli == m_p2p.n0_milli,
        m_path.freq_hz == m_p2p.freq_hz,
        m_path.pol == m_p2p.pol,
        m_path.epsilon_milli == m_p2p.epsilon_milli,
        m_path.sigma_milli == m_p2p.sigma_milli,
        m_path.mdvar == m_p2p.mdvar,
        m_path.time_milli == m_p2p.time_milli,
        m_path.location_milli == m_p2p.location_milli,
        m_path.situation_milli == m_p2p.situation_milli,
{
    assert(q.distances_mm@[1] == p.distances_mm@[1]);
}

} // verus!
