use geoprop::{
    collect_path, complete, consolidate, coverage_cells, edge_length_mm, finish_cell, ring_bound,
    CellStep, Climate, CoverageSample, GeopropError, Itm, ItmError, ModeVariability, ModelInput,
    Point, Polarization, Profile, TerrainError,
};

fn default_itm() -> Itm {
    Itm::new(None, None, None, None, None, None, None, None, None)
}

fn sample_profile() -> Profile {
    Profile::from_samples(
        1_000_000,
        1_000,
        vec![0, 90_000, 180_000, 270_000],
        vec![(36_159_600, -112_306_877); 4],
        vec![10_000, 20_000, 30_000, 25_000],
        vec![12_000, 21_000, 30_000, 26_000],
    )
    .unwrap()
}

fn grand_canyon_cell() -> u64 {
    let ll = h3o::LatLng::new(36.1596, -112.306877).unwrap();
    u64::from(ll.to_cell(h3o::Resolution::Ten))
}

#[test]
fn itm_new_defaults() {
    let itm = default_itm();
    assert_eq!(itm.climate, Climate::ContinentalTemperate);
    assert_eq!(itm.n0_milli, 301_000);
    assert_eq!(itm.pol, Polarization::Vertical);
    assert_eq!(itm.epsilon_milli, 15_000);
    assert_eq!(itm.sigma_milli, 5);
    assert_eq!(itm.mdvar, ModeVariability::Mobile);
    assert_eq!(itm.time_milli, 95_000);
    assert_eq!(itm.location_milli, 95_000);
    assert_eq!(itm.situation_milli, 95_000);
}

#[test]
fn itm_new_overrides() {
    let itm = Itm::new(
        Some(Climate::Desert),
        Some(280_000),
        Some(Polarization::Horizontal),
        None,
        None,
        Some(ModeVariability::Broadcast),
        Some(50_000),
        None,
        None,
    );
    assert_eq!(itm.climate, Climate::Desert);
    assert_eq!(itm.n0_milli, 280_000);
    assert_eq!(itm.pol, Polarization::Horizontal);
    assert_eq!(itm.epsilon_milli, 15_000);
    assert_eq!(itm.mdvar, ModeVariability::Broadcast);
    assert_eq!(itm.time_milli, 50_000);
    assert_eq!(itm.location_milli, 95_000);
}

#[test]
fn p2p_marshals_profile() {
    let itm = default_itm();
    let profile = sample_profile();
    let m = itm.p2p(&profile, 900_000_000);
    assert_eq!(m.start_alt_mm, 1_000_000);
    assert_eq!(m.end_alt_mm, 1_000);
    assert_eq!(m.step_mm, 90_000);
    assert_eq!(m.terrain_elev_mm, vec![10_000, 20_000, 30_000, 25_000]);
    assert_eq!(m.climate, Climate::ContinentalTemperate);
    assert_eq!(m.n0_milli, 301_000);
    assert_eq!(m.freq_hz, 900_000_000);
    assert_eq!(m.pol, Polarization::Vertical);
    assert_eq!(m.epsilon_milli, 15_000);
    assert_eq!(m.sigma_milli, 5);
    assert_eq!(m.mdvar, ModeVariability::Mobile);
    assert_eq!(m.time_milli, 95_000);
    assert_eq!(m.location_milli, 95_000);
    assert_eq!(m.situation_milli, 95_000);
}

#[test]
fn p2p_identical_inputs_identical_requests() {
    let itm = default_itm();
    let profile = sample_profile();
    let m1 = itm.p2p(&profile, 900_000_000);
    let m2 = itm.p2p(&profile, 900_000_000);
    assert_eq!(m1, m2);
}

#[test]
fn path_evaluates_every_prefix() {
    let itm = default_itm();
    let profile = sample_profile();
    let requests = itm.path(&profile, 900_000_000);
    assert_eq!(requests.len(), 3);
    for (i, request) in requests.iter().enumerate() {
        let truncated = profile.truncated(i + 2);
        let p2p = itm.p2p(&truncated, 900_000_000);
        assert_eq!(request, &p2p);
    }
    assert_eq!(requests[0].terrain_elev_mm, vec![10_000, 20_000]);
    assert_eq!(requests[2].terrain_elev_mm, vec![10_000, 20_000, 30_000, 25_000]);
}

#[test]
fn collect_path_preserves_order() {
    let results: Vec<Result<i64, ItmError>> = vec![Ok(101_000), Ok(115_500), Ok(140_250)];
    let collected = collect_path(&results).unwrap();
    assert_eq!(collected, vec![101_000, 115_500, 140_250]);
}

#[test]
fn collect_path_aborts_on_first_error() {
    let results: Vec<Result<i64, ItmError>> = vec![
        Ok(101_000),
        Err(ItmError::InvalidFrequency),
        Err(ItmError::Numerical),
    ];
    let collected = collect_path(&results);
    assert_eq!(collected, Err(GeopropError::Itm(ItmError::InvalidFrequency)));
}

#[test]
fn complete_passes_attenuation_through() {
    assert_eq!(complete(Ok(123_456)), Ok(123_456));
    assert_eq!(
        complete(Err(ItmError::ParameterOutOfRange)),
        Err(GeopropError::Itm(ItmError::ParameterOutOfRange))
    );
}

#[test]
fn cell_step_short_circuits_degenerate_profile() {
    let itm = default_itm();
    let profile = Profile::from_samples(
        1_000_000,
        1_000,
        vec![0],
        vec![(36_159_600, -112_306_877)],
        vec![42_000],
        vec![42_000],
    )
    .unwrap();
    let step = itm.cell_step(0x8a48_93a8_0b37_ffff, &profile, 900_000_000);
    match step {
        CellStep::Ready(s) => {
            assert_eq!(s.cell_id, 0x8a48_93a8_0b37_ffff);
            assert_eq!(s.terrain_elev_mm, 42_000);
            assert_eq!(s.atten_mdb, 0);
        }
        CellStep::Evaluate(_) => panic!("degenerate profile must not invoke the model"),
    }
}

#[test]
fn cell_step_requests_model_for_real_paths() {
    let itm = default_itm();
    let profile = sample_profile();
    let step = itm.cell_step(7, &profile, 900_000_000);
    match step {
        CellStep::Ready(_) => panic!("a two-plus-sample profile must be evaluated"),
        CellStep::Evaluate(m) => assert_eq!(m, itm.p2p(&profile, 900_000_000)),
    }
}

#[test]
fn finish_cell_records_attenuation() {
    let ok = finish_cell(9, 42_000, Ok(88_000));
    assert_eq!(
        ok,
        Ok(CoverageSample { cell_id: 9, terrain_elev_mm: 42_000, atten_mdb: 88_000 })
    );
    let err = finish_cell(9, 42_000, Err(ItmError::Numerical));
    assert_eq!(err, Err(GeopropError::Itm(ItmError::Numerical)));
}

#[test]
fn ring_bound_zero_radius_visits_only_center() {
    assert_eq!(ring_bound(0, 75_863), 0);
    assert_eq!(ring_bound(0, 584), 0);
}

#[test]
fn ring_bound_matches_radius_over_edge_sqrt3() {
    // 12 km at resolution 10: 12e6 * 1e7 / (75863 * 17320508) = 91.
    assert_eq!(ring_bound(12_000_000, 75_863), 91);
    // Just below one ring's reach.
    assert_eq!(ring_bound(131_000, 75_863), 0);
    // Just above it.
    assert_eq!(ring_bound(132_000, 75_863), 1);
}

#[test]
fn edge_lengths_match_grid_library() {
    for res in 0u8..=15 {
        let expected = (h3o::Resolution::try_from(res).unwrap().edge_length_m() * 1000.0) as u64;
        assert_eq!(edge_length_mm(res), expected);
    }
}

#[test]
fn coverage_cells_zero_radius_is_center_cell() {
    let cell = grand_canyon_cell();
    let cells = coverage_cells(cell, 10, 0).unwrap();
    assert_eq!(cells, vec![cell]);
}

#[test]
fn coverage_cells_rejects_invalid_cell() {
    assert_eq!(coverage_cells(0, 10, 1_000_000), None);
}

#[test]
fn coverage_cells_one_ring() {
    let cell = grand_canyon_cell();
    let cells = coverage_cells(cell, 10, 200_000).unwrap();
    assert_eq!(cells.len(), 7);
    assert_eq!(cells[0], cell);
    for c in &cells {
        assert!(h3o::CellIndex::try_from(*c).is_ok());
    }
}

#[test]
fn coverage_cells_grand_canyon_scenario() {
    // 12 km around the canyon rim at resolution 10: 91 rings of complete
    // hexagons plus the center cell.
    let cell = grand_canyon_cell();
    let mut cells = coverage_cells(cell, 10, 12_000_000).unwrap();
    assert_eq!(cells.len(), 1 + 3 * 91 * 92);
    // Every visited cell appears exactly once.
    cells.sort_unstable();
    cells.dedup();
    assert_eq!(cells.len(), 1 + 3 * 91 * 92);
}

#[test]
fn consolidate_without_threshold_keeps_everything() {
    let a = CoverageSample { cell_id: 1, terrain_elev_mm: 5_000, atten_mdb: 100_000 };
    let b = CoverageSample { cell_id: 2, terrain_elev_mm: 6_000, atten_mdb: 120_000 };
    let c = CoverageSample { cell_id: 3, terrain_elev_mm: 7_000, atten_mdb: 130_000 };
    let outcomes: Vec<Result<CoverageSample, GeopropError>> = vec![Ok(a), Ok(b), Ok(c)];
    assert_eq!(consolidate(&outcomes, None), Ok(vec![a, b, c]));
}

#[test]
fn consolidate_threshold_excludes_equal_attenuation() {
    let a = CoverageSample { cell_id: 1, terrain_elev_mm: 5_000, atten_mdb: 100_000 };
    let b = CoverageSample { cell_id: 2, terrain_elev_mm: 6_000, atten_mdb: 120_000 };
    let c = CoverageSample { cell_id: 3, terrain_elev_mm: 7_000, atten_mdb: 130_000 };
    let outcomes: Vec<Result<CoverageSample, GeopropError>> = vec![Ok(a), Ok(b), Ok(c)];
    // Exactly 120 dB is excluded: the comparison is a strict less-than.
    assert_eq!(consolidate(&outcomes, Some(120_000)), Ok(vec![a]));
}

#[test]
fn consolidate_threshold_reduces_count() {
    let a = CoverageSample { cell_id: 1, terrain_elev_mm: 5_000, atten_mdb: 100_000 };
    let b = CoverageSample { cell_id: 2, terrain_elev_mm: 6_000, atten_mdb: 120_000 };
    let c = CoverageSample { cell_id: 3, terrain_elev_mm: 7_000, atten_mdb: 130_000 };
    let outcomes: Vec<Result<CoverageSample, GeopropError>> = vec![Ok(a), Ok(b), Ok(c)];
    let unfiltered = consolidate(&outcomes, None).unwrap();
    let filtered = consolidate(&outcomes, Some(120_000)).unwrap();
    assert!(filtered.len() <= unfiltered.len());
    assert_eq!(unfiltered.len(), 3);
    assert_eq!(filtered.len(), 1);
}

#[test]
fn consolidate_raising_threshold_never_drops_kept_samples() {
    let a = CoverageSample { cell_id: 1, terrain_elev_mm: 5_000, atten_mdb: 100_000 };
    let b = CoverageSample { cell_id: 2, terrain_elev_mm: 6_000, atten_mdb: 120_000 };
    let c = CoverageSample { cell_id: 3, terrain_elev_mm: 7_000, atten_mdb: 130_000 };
    let outcomes: Vec<Result<CoverageSample, GeopropError>> = vec![Ok(a), Ok(b), Ok(c)];
    let low = consolidate(&outcomes, Some(110_000)).unwrap();
    let high = consolidate(&outcomes, Some(125_000)).unwrap();
    for kept in &low {
        assert!(high.contains(kept));
    }
}

#[test]
fn consolidate_aborts_with_first_failure() {
    let a = CoverageSample { cell_id: 1, terrain_elev_mm: 5_000, atten_mdb: 100_000 };
    let outcomes: Vec<Result<CoverageSample, GeopropError>> = vec![
        Ok(a),
        Err(GeopropError::Terrain(TerrainError::NoElevationData)),
        Err(GeopropError::Itm(ItmError::Numerical)),
    ];
    let expected = Err(GeopropError::Terrain(TerrainError::NoElevationData));
    assert_eq!(consolidate(&outcomes, None), expected);
    // The threshold never filters a failure out.
    assert_eq!(consolidate(&outcomes, Some(120_000)), expected);
    assert_eq!(consolidate(&outcomes, Some(-1)), expected);
}

#[test]
fn profile_from_samples_validates() {
    let gc = vec![(1, 2), (3, 4)];
    // No samples at all.
    assert!(Profile::from_samples(0, 0, vec![], vec![], vec![], vec![]).is_none());
    // Distances not starting at zero.
    assert!(Profile::from_samples(0, 0, vec![5], vec![(1, 2)], vec![1], vec![1]).is_none());
    // Distances not strictly increasing.
    assert!(Profile::from_samples(
        0,
        0,
        vec![0, 90_000, 90_000],
        vec![(1, 2), (3, 4), (5, 6)],
        vec![1, 2, 3],
        vec![1, 2, 3]
    )
    .is_none());
    // Terrain sequence misaligned.
    assert!(
        Profile::from_samples(0, 0, vec![0, 90_000], gc.clone(), vec![1], vec![1, 2]).is_none()
    );
    // Great-circle sequence misaligned.
    assert!(
        Profile::from_samples(0, 0, vec![0, 90_000], vec![(1, 2)], vec![1, 2], vec![1, 2])
            .is_none()
    );
    // Line-of-sight sequence misaligned.
    assert!(
        Profile::from_samples(0, 0, vec![0, 90_000], gc.clone(), vec![1, 2], vec![1]).is_none()
    );
    let p = Profile::from_samples(0, 0, vec![0, 90_000], gc, vec![1, 2], vec![1, 2]).unwrap();
    assert_eq!(p.distances_mm, vec![0, 90_000]);
    assert_eq!(p.terrain_elev_mm, vec![1, 2]);
}

#[test]
fn truncated_keeps_terminals_and_step() {
    let profile = sample_profile();
    let t = profile.truncated(2);
    assert_eq!(t.start_alt_mm, 1_000_000);
    assert_eq!(t.end_alt_mm, 1_000);
    assert_eq!(t.distances_mm, vec![0, 90_000]);
    assert_eq!(t.terrain_elev_mm, vec![10_000, 20_000]);
    assert_eq!(t.great_circle.len(), 2);
    assert_eq!(t.los_elev_mm, vec![12_000, 21_000]);
}

#[test]
fn point_new_defaults_altitude() {
    let p = Point::new(36_159_600, -112_306_877, None);
    assert_eq!(p.alt_mm, 0);
    let q = Point::new(36_159_600, -112_306_877, Some(1_000_000));
    assert_eq!(q.alt_mm, 1_000_000);
    assert_eq!(q.lat_udeg, 36_159_600);
    assert_eq!(q.lon_udeg, -112_306_877);
}

#[test]
fn model_codes_match_model_conventions() {
    assert_eq!(Climate::Equatorial.code(), 1);
    assert_eq!(Climate::ContinentalSubtropical.code(), 2);
    assert_eq!(Climate::MaritimeSubtropical.code(), 3);
    assert_eq!(Climate::Desert.code(), 4);
    assert_eq!(Climate::ContinentalTemperate.code(), 5);
    assert_eq!(Climate::MaritimeTemperateOverLand.code(), 6);
    assert_eq!(Climate::MaritimeTemperateOverSea.code(), 7);
    assert_eq!(Polarization::Horizontal.code(), 0);
    assert_eq!(Polarization::Vertical.code(), 1);
    assert_eq!(ModeVariability::SingleMessage.code(), 0);
    assert_eq!(ModeVariability::Accidental.code(), 1);
    assert_eq!(ModeVariability::Mobile.code(), 2);
    assert_eq!(ModeVariability::Broadcast.code(), 3);
}

#[test]
fn unified_error_wraps_both_kinds() {
    assert_eq!(
        GeopropError::from(TerrainError::InvalidCoordinate),
        GeopropError::Terrain(TerrainError::InvalidCoordinate)
    );
    assert_eq!(
        GeopropError::from(ItmError::InvalidFrequency),
        GeopropError::Itm(ItmError::InvalidFrequency)
    );
}

#[test]
fn model_input_is_plain_data() {
    let itm = default_itm();
    let profile = sample_profile();
    let m: ModelInput = itm.p2p(&profile, 900_000_000);
    let copy = m.clone();
    assert_eq!(m, copy);
}
