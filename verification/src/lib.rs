//! Terrain-aware radio coverage estimation: point-to-point and path loss
//! evaluation over sampled terrain profiles, and hex-ring area coverage
//! planning with receiver-sensitivity threshold filtering.
//!
//! The propagation loss model and the terrain profile service are external
//! collaborators: this crate marshals fully-determined requests for them,
//! plans the hexagonal search grid, and consolidates their answers, aborting
//! an operation on the first failure of any of its units of work.
//!
//! All physical quantities are carried as fixed-point integers so that every
//! comparison and bound in the estimators is exact: latitudes and longitudes
//! in microdegrees, altitudes and elevations in millimeters, distances in
//! millimeters, attenuations and thresholds in millidecibels, and the
//! model's dimensionless parameters in thousandths.

mod climate;
mod coverage;
mod error;
mod hex;
mod itm;
mod mdvar;
mod point;
mod polarization;
mod profile;

pub use climate::Climate;
pub use coverage::{
    consolidate, coverage_cells, finish_cell, keeps_pred, lemma_first_failure_unique,
    lemma_no_threshold_keeps_all, lemma_threshold_monotonic, lemma_threshold_reduces_count,
    ring_bound, spec_filtered, spec_keeps, spec_oks, spec_plan_cells, spec_ring_bound, CellStep,
    CoverageSample,
};
pub use error::{GeopropError, ItmError, TerrainError};
pub use hex::{edge_length_mm, hex_grid_distance, hex_ring, is_hex_cell, spec_edge_length_mm};
pub use itm::{
    collect_path, complete, is_request, lemma_p2p_deterministic, lemma_path_entry_is_p2p, Itm,
    ModelInput,
};
pub use mdvar::ModeVariability;
pub use point::Point;
pub use polarization::Polarization;
pub use profile::{Profile, MAX_STEP_MM};
