use vstd::prelude::*;

verus! {

/// The maximum sampling step, in millimeters, at which the terrain
/// profile service is asked to sample a path: one sample at least every
/// 90 meters.
pub const MAX_STEP_MM: u64 = 90_000;

/// Terrain samples along the great-circle path between two points, as the
/// terrain profile service reports them: terminal altitudes, cumulative
/// path distances, terrain elevations, the sampled great-circle
/// coordinates (latitude, longitude in microdegrees), and line-of-sight
/// elevations. Distances and terrain elevations are index-aligned;
/// distances start at zero and strictly increase.
#[derive(Clone, Debug, PartialEq)]
pub struct Profile {
    pub start_alt_mm: i64,
    pub end_alt_mm: i64,
    pub distances_mm: Vec<u64>,
    pub great_circle: Vec<(i64, i64)>,
    pub terrain_elev_mm: Vec<i64>,
    pub los_elev_mm: Vec<i64>,
}

impl Profile {
    /// The profile invariant: at least one sample, distances starting at
    /// zero and strictly increasing, and every sample sequence — terrain
    /// elevations, great-circle coordinates, line-of-sight elevations —
    /// aligned index-for-index with the distances.
    pub open spec fn wf(self) -> bool {
        &&& self.distances_mm@.len() >= 1
        &&& self.distances_mm@[0] == 0
        &&& forall|i: int, j: int|
            0 <= i < j < self.distances_mm@.len() ==> self.distances_mm@[i] < self.distances_mm@[j]
        &&& self.terrain_elev_mm@.len() == self.distances_mm@.len()
        &&& self.great_circle@.len() == self.distances_mm@.len()
        &&& self.los_elev_mm@.len() == self.distances_mm@.len()
    }

    /// Number of samples in the profile.
    pub open spec fn spec_len(self) -> nat {
        self.distances_mm@.len()
    }

    pub fn len(&self) -> (r: usize)
        ensures
            r == self.spec_len(),
    {
        self.distances_mm.len()
    }

    /// The uniform sampling step: the distance of the second sample.
    pub fn step_mm(&self) -> (r: u64)
        requires
            self.spec_len() >= 2,
        ensures
            r == self.distances_mm@[1],
    {
        self.distances_mm[1]
    }

    /// The terrain elevation at the far end of the path.
    pub fn last_elev_mm(&self) -> (r: i64)
        requires
            self.wf(),
        ensures
            r == self.terrain_elev_mm@.last(),
    {
        self.terrain_elev_mm[self.terrain_elev_mm.len() - 1]
    }

    /// Validating constructor: `Some` exactly when the sample sequences
    /// satisfy the profile invariant.
    pub fn from_samples(
        start_alt_mm: i64,
        end_alt_mm: i64,
        distances_mm: Vec<u64>,
        great_circle: Vec<(i64, i64)>,
        terrain_elev_mm: Vec<i64>,
        los_elev_mm: Vec<i64>,
    ) -> (r: Option<Profile>)
        ensures
            r matches Some(p) ==> {
                &&& p.wf()
                &&& p.start_alt_mm == start_alt_mm
                &&& p.end_alt_mm == end_alt_mm
                &&& p.distances_mm@ == distances_mm@
                &&& p.great_circle@ == great_circle@
                &&& p.terrain_elev_mm@ == terrain_elev_mm@
                &&& p.los_elev_mm@ == los_elev_mm@
            },
            r is None ==> !(Profile {
                start_alt_mm,
                end_alt_mm,
                distances_mm,
                great_circle,
                terrain_elev_mm,
                los_elev_mm,
            }).wf(),
    {
        if distances_mm.len() == 0 {
            return None;
        }
        if distances_mm[0] != 0 {
            return None;
        }
        if terrain_elev_mm.len() != distances_mm.len() {
            return None;
        }
        if great_circle.len() != distances_mm.len() {
            return None;
        }
        if los_elev_mm.len() != distances_mm.len() {
            return None;
        }
        let mut i: usize = 1;
        while i < distances_mm.len()
            invariant
                1 <= i <= distances_mm@.len(),
                forall|a: int, b: int| 0 <= a < b < i ==> distances_mm@[a] < distances_mm@[b],
            decreases distances_mm@.len() - i,
        {
            if distances_mm[i - 1] >= distances_mm[i] {
                return None;
            }
            i = i + 1;
        }
        Some(Profile { start_alt_mm, end_alt_mm, distances_mm, great_circle, terrain_elev_mm, los_elev_mm })
    }

    /// The profile cut off after its first `n` samples, as if the path
    /// ended at sample `n - 1`: terminal altitudes and step size are kept,
    /// every sample sequence is truncated.
    pub fn truncated(&self, n: usize) -> (r: Profile)
        requires
            self.wf(),
            2 <= n <= self.spec_len(),
        ensures
            r.wf(),
            r.start_alt_mm == self.start_alt_mm,
            r.end_alt_mm == self.end_alt_mm,
            r.distances_mm@ == self.distances_mm@.take(n as int),
            r.terrain_elev_mm@ == self.terrain_elev_mm@.take(n as int),
            r.great_circle@ == self.great_circle@.take(n as int),
            r.los_elev_mm@ == self.los_elev_mm@.take(n as int),
            r.distances_mm@[1] == self.distances_mm@[1],
            r.spec_len() == n,
    {
        let r = Profile {
            start_alt_mm: self.start_alt_mm,
            end_alt_mm: self.end_alt_mm,
            distances_mm: vec_prefix(&self.distances_mm, n),
            great_circle: vec_prefix(&self.great_circle, n),
            terrain_elev_mm: vec_prefix(&self.terrain_elev_mm, n),
            los_elev_mm: vec_prefix(&self.los_elev_mm, n),
        };
        assert(r.distances_mm@[0] == self.distances_mm@[0]);
        assert(r.distances_mm@[1] == self.distances_mm@[1]);
        r
    }
}

/// The first `n` elements of a vector; a shorter vector is returned whole.
pub fn vec_prefix<T: Copy>(v: &Vec<T>, n: usize) -> (r: Vec<T>)
    ensures
        n <= v@.len() ==> r@ == v@.take(n as int),
        n > v@.len() ==> r@ == v@,
{
    let k: usize = if n <= v.len() {
        n
    } else {
        v.len()
    };
    let mut r: Vec<T> = Vec::new();
    let mut i: usize = 0;
    while i < k
        invariant
            0 <= i <= k <= v@.len(),
            r@ == v@.take(i as int),
        decreases k - i,
    {
        r.push(v[i]);
        assert(r@ =~= v@.take(i + 1));
        i = i + 1;
    }
    assert(n > v@.len() ==> k == v@.len() && v@.take(k as int) =~= v@);
    r
}

} // verus!
