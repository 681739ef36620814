use vstd::prelude::*;

verus! {

/// Why the terrain profile service could not produce a profile.
#[derive(Clone, Copy, Debug, PartialEq, Eq, Structural)]
pub enum TerrainError {
    /// No elevation data is available for some point along the path.
    NoElevationData,
    /// A coordinate lies outside the terrain data's domain.
    InvalidCoordinate,
}

/// Why the propagation loss model rejected an evaluation.
#[derive(Clone, Copy, Debug, PartialEq, Eq, Structural)]
pub enum ItmError {
    /// A parameter (such as a confidence percentile) is out of range.
    ParameterOutOfRange,
    /// The frequency is outside the model's valid domain.
    InvalidFrequency,
    /// The model encountered a numerical domain error.
    Numerical,
}

/// Unified failure type surfaced by every evaluator: terrain-access and
/// propagation-model failures are reported verbatim, and the first
/// failure of any unit of work aborts its whole operation.
#[derive(Clone, Copy, Debug, PartialEq, Eq, Structural)]
pub enum GeopropError {
    Terrain(TerrainError),
    Itm(ItmError),
}

impl From<TerrainError> for GeopropError {
    fn from(e: TerrainError) -> (r: GeopropError)
        ensures
            r == GeopropError::Terrain(e),
    {
        GeopropError::Terrain(e)
    }
}

impl vstd::std_specs::convert::FromSpecImpl<TerrainError> for GeopropError {
    open spec fn obeys_from_spec() -> bool {
        true
    }

    open spec fn from_spec(e: TerrainError) -> GeopropError {
        GeopropError::Terrain(e)
    }
}

impl From<ItmError> for GeopropError {
    fn from(e: ItmError) -> (r: GeopropError)
        ensures
            r == GeopropError::Itm(e),
    {
        GeopropError::Itm(e)
    }
}

impl vstd::std_specs::convert::FromSpecImpl<ItmError> for GeopropError {
    open spec fn obeys_from_spec() -> bool {
        true
    }

    open spec fn from_spec(e: ItmError) -> GeopropError {
        GeopropError::Itm(e)
    }
}

} // verus!
