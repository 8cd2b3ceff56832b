use mammocat_core::selection::views::{
    apply_filters, is_candidate_for_view, passes_filters, passes_rules, records_of_family,
    select_common_modality, select_for_view,
};
use mammocat_core::selection::{
    get_preferred_views, get_preferred_views_filtered, get_preferred_views_with_order,
    MammogramRecord,
};
use mammocat_core::{
    standard_mammo_views, FilterConfig, ImageType, Laterality, MammogramMetadata, MammogramType,
    MammogramView, PreferenceOrder, TypeSet, ViewPosition,
};
use std::path::PathBuf;

fn make_test_record(
    laterality: Laterality,
    view_pos: ViewPosition,
    mammo_type: MammogramType,
) -> MammogramRecord {
    MammogramRecord {
        file_path: PathBuf::from(format!("{:?}_{:?}.dcm", laterality, view_pos)),
        metadata: MammogramMetadata {
            mammogram_type: mammo_type,
            laterality,
            view_position: view_pos,
            image_type: ImageType::new("ORIGINAL".to_string(), "PRIMARY".to_string(), None, None),
            is_for_processing: false,
            has_implant: false,
            is_spot_compression: false,
            is_magnified: false,
            is_implant_displaced: false,
            manufacturer: None,
            model: None,
            number_of_frames: 1,
            is_secondary_capture: false,
            modality: Some("MG".to_string()),
        },
        rows: Some(2560),
        columns: Some(3328),
        is_implant_displaced: false,
        is_spot_compression: false,
        is_magnified: false,
        study_instance_uid: None,
        sop_instance_uid: None,
    }
}

fn sized_record(
    laterality: Laterality,
    view_pos: ViewPosition,
    mammo_type: MammogramType,
    rows: u16,
    columns: u16,
) -> MammogramRecord {
    let mut r = make_test_record(laterality, view_pos, mammo_type);
    r.rows = Some(rows);
    r.columns = Some(columns);
    r
}

fn selected_type(
    selection: &mammocat_core::selection::PreferredViews,
    laterality: Laterality,
    view: ViewPosition,
) -> Option<MammogramType> {
    selection
        .get(&MammogramView::new(laterality, view))
        .unwrap()
        .as_ref()
        .map(|r| r.metadata.mammogram_type)
}

#[test]
fn test_is_candidate_for_view_laterality_match() {
    let l_mlo_view = MammogramView::new(Laterality::Left, ViewPosition::Mlo);
    let r_mlo_view = MammogramView::new(Laterality::Right, ViewPosition::Mlo);

    let left_record = make_test_record(Laterality::Left, ViewPosition::Mlo, MammogramType::Ffdm);
    let right_record = make_test_record(Laterality::Right, ViewPosition::Mlo, MammogramType::Ffdm);

    // Left record should be candidate for left view only
    assert!(is_candidate_for_view(&left_record, &l_mlo_view));
    assert!(!is_candidate_for_view(&left_record, &r_mlo_view));

    // Right record should be candidate for right view only
    assert!(!is_candidate_for_view(&right_record, &l_mlo_view));
    assert!(is_candidate_for_view(&right_record, &r_mlo_view));
}

#[test]
fn test_is_candidate_for_view_mlo_like() {
    let mlo_view = MammogramView::new(Laterality::Left, ViewPosition::Mlo);

    // MLO, ML, Lmo, Lm are all MLO-like
    let mlo_record = make_test_record(Laterality::Left, ViewPosition::Mlo, MammogramType::Ffdm);
    let ml_record = make_test_record(Laterality::Left, ViewPosition::Ml, MammogramType::Ffdm);
    let lmo_record = make_test_record(Laterality::Left, ViewPosition::Lmo, MammogramType::Ffdm);
    let lm_record = make_test_record(Laterality::Left, ViewPosition::Lm, MammogramType::Ffdm);

    assert!(is_candidate_for_view(&mlo_record, &mlo_view));
    assert!(is_candidate_for_view(&ml_record, &mlo_view));
    assert!(is_candidate_for_view(&lmo_record, &mlo_view));
    assert!(is_candidate_for_view(&lm_record, &mlo_view));

    // CC should not be candidate for MLO view
    let cc_record = make_test_record(Laterality::Left, ViewPosition::Cc, MammogramType::Ffdm);
    assert!(!is_candidate_for_view(&cc_record, &mlo_view));
}

#[test]
fn test_is_candidate_for_view_cc_like() {
    let cc_view = MammogramView::new(Laterality::Right, ViewPosition::Cc);

    // CC, XCCL, XCCM are all CC-like
    let cc_record = make_test_record(Laterality::Right, ViewPosition::Cc, MammogramType::Ffdm);
    let xccl_record = make_test_record(Laterality::Right, ViewPosition::Xccl, MammogramType::Ffdm);
    let xccm_record = make_test_record(Laterality::Right, ViewPosition::Xccm, MammogramType::Ffdm);

    assert!(is_candidate_for_view(&cc_record, &cc_view));
    assert!(is_candidate_for_view(&xccl_record, &cc_view));
    assert!(is_candidate_for_view(&xccm_record, &cc_view));

    // MLO should not be candidate for CC view
    let mlo_record = make_test_record(Laterality::Right, ViewPosition::Mlo, MammogramType::Ffdm);
    assert!(!is_candidate_for_view(&mlo_record, &cc_view));
}

#[test]
fn test_get_preferred_views_basic() {
    // Create 4 standard views
    let records = vec![
        make_test_record(Laterality::Left, ViewPosition::Mlo, MammogramType::Ffdm),
        make_test_record(Laterality::Right, ViewPosition::Mlo, MammogramType::Ffdm),
        make_test_record(Laterality::Left, ViewPosition::Cc, MammogramType::Ffdm),
        make_test_record(Laterality::Right, ViewPosition::Cc, MammogramType::Ffdm),
    ];

    let selections = get_preferred_views(&records);

    // Should have all 4 standard views
    assert_eq!(selections.len(), 4);

    // Each should have a selection
    for view in standard_mammo_views().iter() {
        assert!(selections.contains_key(view));
        assert!(selections.get(view).unwrap().is_some());
    }
}

#[test]
fn test_get_preferred_views_missing() {
    // Only create 3 views (missing R-CC)
    let records = vec![
        make_test_record(Laterality::Left, ViewPosition::Mlo, MammogramType::Ffdm),
        make_test_record(Laterality::Right, ViewPosition::Mlo, MammogramType::Ffdm),
        make_test_record(Laterality::Left, ViewPosition::Cc, MammogramType::Ffdm),
    ];

    let selections = get_preferred_views(&records);

    // Should have all 4 standard views in result
    assert_eq!(selections.len(), 4);

    // First 3 should have selections
    assert!(selections
        .get(&MammogramView::new(Laterality::Left, ViewPosition::Mlo))
        .unwrap()
        .is_some());
    assert!(selections
        .get(&MammogramView::new(Laterality::Right, ViewPosition::Mlo))
        .unwrap()
        .is_some());
    assert!(selections
        .get(&MammogramView::new(Laterality::Left, ViewPosition::Cc))
        .unwrap()
        .is_some());

    // R-CC should be None
    assert!(selections
        .get(&MammogramView::new(Laterality::Right, ViewPosition::Cc))
        .unwrap()
        .is_none());
}

#[test]
fn test_get_preferred_views_type_preference() {
    // Create multiple of same view with different types
    let records = vec![
        make_test_record(Laterality::Left, ViewPosition::Mlo, MammogramType::Ffdm),
        make_test_record(Laterality::Left, ViewPosition::Mlo, MammogramType::Tomo),
        make_test_record(Laterality::Left, ViewPosition::Mlo, MammogramType::Synth),
    ];

    let selections = get_preferred_views(&records);

    // Should select FFDM (most preferred with default ordering)
    let selected = selections
        .get(&MammogramView::new(Laterality::Left, ViewPosition::Mlo))
        .unwrap()
        .as_ref()
        .unwrap();

    assert_eq!(selected.metadata.mammogram_type, MammogramType::Ffdm);
}

#[test]
fn test_get_preferred_views_default_order() {
    // Create multiple of same view with different types
    let records = vec![
        make_test_record(Laterality::Left, ViewPosition::Mlo, MammogramType::Ffdm),
        make_test_record(Laterality::Left, ViewPosition::Mlo, MammogramType::Tomo),
        make_test_record(Laterality::Left, ViewPosition::Mlo, MammogramType::Synth),
    ];

    let selections = get_preferred_views_with_order(&records, PreferenceOrder::Default);

    // Should select FFDM (most preferred with Default ordering)
    let selected = selections
        .get(&MammogramView::new(Laterality::Left, ViewPosition::Mlo))
        .unwrap()
        .as_ref()
        .unwrap();

    assert_eq!(selected.metadata.mammogram_type, MammogramType::Ffdm);
}

#[test]
fn test_get_preferred_views_tomo_first_order() {
    // Create multiple of same view with different types
    let records = vec![
        make_test_record(Laterality::Left, ViewPosition::Mlo, MammogramType::Ffdm),
        make_test_record(Laterality::Left, ViewPosition::Mlo, MammogramType::Tomo),
        make_test_record(Laterality::Left, ViewPosition::Mlo, MammogramType::Synth),
    ];

    let selections = get_preferred_views_with_order(&records, PreferenceOrder::TomoFirst);

    // Should select TOMO (most preferred with TomoFirst ordering)
    let selected = selections
        .get(&MammogramView::new(Laterality::Left, ViewPosition::Mlo))
        .unwrap()
        .as_ref()
        .unwrap();

    assert_eq!(selected.metadata.mammogram_type, MammogramType::Tomo);
}

#[test]
fn test_get_preferred_views_empty() {
    let records: Vec<MammogramRecord> = vec![];
    let selections = get_preferred_views(&records);

    // Should have all 4 standard views, but all None
    assert_eq!(selections.len(), 4);
    for view in standard_mammo_views().iter() {
        assert!(selections.get(view).unwrap().is_none());
    }
}

#[test]
fn test_apply_filters_allowed_types() {
    let mut allowed_types = TypeSet::new();
    allowed_types.insert(MammogramType::Ffdm);

    let config = FilterConfig::default().with_allowed_types(allowed_types);

    let records = vec![
        make_test_record(Laterality::Left, ViewPosition::Mlo, MammogramType::Ffdm),
        make_test_record(Laterality::Left, ViewPosition::Mlo, MammogramType::Tomo),
        make_test_record(Laterality::Left, ViewPosition::Mlo, MammogramType::Synth),
    ];

    let filtered = apply_filters(&records, &config);
    assert_eq!(filtered.len(), 1);
    assert_eq!(filtered[0].metadata.mammogram_type, MammogramType::Ffdm);
}

#[test]
fn test_apply_filters_exclude_implants() {
    let config = FilterConfig::default().exclude_implants(true);

    let mut record_with_implant =
        make_test_record(Laterality::Left, ViewPosition::Mlo, MammogramType::Ffdm);
    record_with_implant.metadata.has_implant = true;

    let record_without_implant =
        make_test_record(Laterality::Left, ViewPosition::Cc, MammogramType::Ffdm);

    let records = vec![record_with_implant, record_without_implant];
    let filtered = apply_filters(&records, &config);

    assert_eq!(filtered.len(), 1);
    assert!(!filtered[0].metadata.has_implant);
}

#[test]
fn test_apply_filters_exclude_non_standard() {
    let config = FilterConfig::default().exclude_non_standard_views(true);

    let records = vec![
        make_test_record(Laterality::Left, ViewPosition::Mlo, MammogramType::Ffdm),
        make_test_record(Laterality::Left, ViewPosition::Cc, MammogramType::Ffdm),
        make_test_record(Laterality::Left, ViewPosition::Ml, MammogramType::Ffdm),
    ];

    let filtered = apply_filters(&records, &config);
    assert_eq!(filtered.len(), 2); // Only MLO and CC
}

#[test]
fn test_apply_filters_exclude_for_processing() {
    let config = FilterConfig::default().exclude_for_processing(true);

    let mut for_processing_record =
        make_test_record(Laterality::Left, ViewPosition::Mlo, MammogramType::Ffdm);
    for_processing_record.metadata.is_for_processing = true;

    let presentation_record =
        make_test_record(Laterality::Left, ViewPosition::Cc, MammogramType::Ffdm);

    let records = vec![for_processing_record, presentation_record];
    let filtered = apply_filters(&records, &config);

    assert_eq!(filtered.len(), 1);
    assert!(!filtered[0].metadata.is_for_processing);
}

#[test]
fn test_apply_filters_exclude_secondary_capture() {
    let config = FilterConfig::default().exclude_secondary_capture(true);

    let mut secondary_capture_record =
        make_test_record(Laterality::Left, ViewPosition::Mlo, MammogramType::Ffdm);
    secondary_capture_record.metadata.is_secondary_capture = true;

    let regular_record = make_test_record(Laterality::Left, ViewPosition::Cc, MammogramType::Ffdm);

    let records = vec![secondary_capture_record, regular_record];
    let filtered = apply_filters(&records, &config);

    assert_eq!(filtered.len(), 1);
    assert!(!filtered[0].metadata.is_secondary_capture);
}

#[test]
fn test_apply_filters_exclude_non_mg_modality() {
    let config = FilterConfig::default().exclude_non_mg_modality(true);

    let mut ct_record = make_test_record(Laterality::Left, ViewPosition::Mlo, MammogramType::Ffdm);
    ct_record.metadata.modality = Some("CT".to_string());

    let mut mg_record = make_test_record(Laterality::Left, ViewPosition::Cc, MammogramType::Ffdm);
    mg_record.metadata.modality = Some("MG".to_string());

    let mut no_modality_record =
        make_test_record(Laterality::Right, ViewPosition::Mlo, MammogramType::Ffdm);
    no_modality_record.metadata.modality = None;

    let records = vec![ct_record, mg_record, no_modality_record];
    let filtered = apply_filters(&records, &config);

    assert_eq!(filtered.len(), 1);
    assert_eq!(filtered[0].metadata.modality.as_deref().unwrap(), "MG");
}

#[test]
fn test_get_preferred_views_filtered() {
    let mut allowed_types = TypeSet::new();
    allowed_types.insert(MammogramType::Ffdm);

    let config = FilterConfig::default().with_allowed_types(allowed_types);

    let records = vec![
        make_test_record(Laterality::Left, ViewPosition::Mlo, MammogramType::Ffdm),
        make_test_record(Laterality::Left, ViewPosition::Mlo, MammogramType::Tomo),
        make_test_record(Laterality::Right, ViewPosition::Cc, MammogramType::Ffdm),
    ];

    let selections = get_preferred_views_filtered(&records, &config, PreferenceOrder::Default);

    // Should only select FFDM records
    assert!(selections
        .get(&MammogramView::new(Laterality::Left, ViewPosition::Mlo))
        .unwrap()
        .is_some());
    assert_eq!(
        selections
            .get(&MammogramView::new(Laterality::Left, ViewPosition::Mlo))
            .unwrap()
            .as_ref()
            .unwrap()
            .metadata
            .mammogram_type,
        MammogramType::Ffdm
    );
}

#[test]
fn test_selection_by_order_with_different_resolutions() {
    let records = vec![
        sized_record(Laterality::Left, ViewPosition::Mlo, MammogramType::Ffdm, 3000, 4000),
        sized_record(Laterality::Left, ViewPosition::Mlo, MammogramType::Tomo, 2000, 2500),
    ];
    let by_default = get_preferred_views_with_order(&records, PreferenceOrder::Default);
    assert_eq!(
        selected_type(&by_default, Laterality::Left, ViewPosition::Mlo),
        Some(MammogramType::Ffdm)
    );
    let by_tomo = get_preferred_views_with_order(&records, PreferenceOrder::TomoFirst);
    assert_eq!(
        selected_type(&by_tomo, Laterality::Left, ViewPosition::Mlo),
        Some(MammogramType::Tomo)
    );
    // the order of the records does not matter here
    let reversed = vec![records[1].clone(), records[0].clone()];
    let by_default = get_preferred_views_with_order(&reversed, PreferenceOrder::Default);
    assert_eq!(
        selected_type(&by_default, Laterality::Left, ViewPosition::Mlo),
        Some(MammogramType::Ffdm)
    );
    assert_eq!(by_default.coverage(), 1);
}

#[test]
fn test_common_modality_drops_the_odd_view() {
    let records = vec![
        make_test_record(Laterality::Left, ViewPosition::Mlo, MammogramType::Ffdm),
        make_test_record(Laterality::Right, ViewPosition::Mlo, MammogramType::Ffdm),
        make_test_record(Laterality::Left, ViewPosition::Cc, MammogramType::Ffdm),
        make_test_record(Laterality::Right, ViewPosition::Cc, MammogramType::Tomo),
    ];
    let plain = get_preferred_views_with_order(&records, PreferenceOrder::Default);
    assert_eq!(plain.coverage(), 4);
    assert_eq!(
        selected_type(&plain, Laterality::Right, ViewPosition::Cc),
        Some(MammogramType::Tomo)
    );

    let config = FilterConfig::default().require_common_modality(true);
    let enforced = get_preferred_views_filtered(&records, &config, PreferenceOrder::Default);
    assert_eq!(enforced.coverage(), 3);
    assert_eq!(
        selected_type(&enforced, Laterality::Right, ViewPosition::Cc),
        None
    );
    for view in standard_mammo_views().iter() {
        if let Some(record) = enforced.get(view).unwrap() {
            assert_eq!(record.metadata.mammogram_type, MammogramType::Ffdm);
        }
    }
    assert!(enforced.is_within_family(true));
    assert!(!enforced.is_within_family(false));
    // the order changes nothing: the 2D pool still covers more views
    let by_tomo = get_preferred_views_filtered(&records, &config, PreferenceOrder::TomoFirst);
    assert_eq!(by_tomo.coverage(), 3);
    assert!(by_tomo.is_within_family(true));
}

#[test]
fn test_common_modality_keeps_a_selection_of_one_family() {
    let records = vec![
        make_test_record(Laterality::Left, ViewPosition::Mlo, MammogramType::Ffdm),
        make_test_record(Laterality::Left, ViewPosition::Mlo, MammogramType::Tomo),
        make_test_record(Laterality::Right, ViewPosition::Cc, MammogramType::Synth),
    ];
    let enforced = select_common_modality(&records, PreferenceOrder::Default);
    assert_eq!(enforced.coverage(), 2);
    assert_eq!(
        selected_type(&enforced, Laterality::Left, ViewPosition::Mlo),
        Some(MammogramType::Ffdm)
    );
    assert_eq!(
        selected_type(&enforced, Laterality::Right, ViewPosition::Cc),
        Some(MammogramType::Synth)
    );
    let empty = select_common_modality(&[], PreferenceOrder::Default);
    assert_eq!(empty.coverage(), 0);
    assert!(empty.is_within_family(true) && empty.is_within_family(false));
}

#[test]
fn test_common_modality_takes_higher_coverage() {
    // plain selection under the default order: L-MLO = FFDM, the rest TOMO
    let records = vec![
        make_test_record(Laterality::Left, ViewPosition::Mlo, MammogramType::Ffdm),
        make_test_record(Laterality::Left, ViewPosition::Mlo, MammogramType::Tomo),
        make_test_record(Laterality::Right, ViewPosition::Mlo, MammogramType::Tomo),
        make_test_record(Laterality::Left, ViewPosition::Cc, MammogramType::Tomo),
    ];
    let enforced = select_common_modality(&records, PreferenceOrder::Default);
    assert_eq!(enforced.coverage(), 3);
    assert!(enforced.is_within_family(false));
    assert_eq!(
        selected_type(&enforced, Laterality::Left, ViewPosition::Mlo),
        Some(MammogramType::Tomo)
    );
}

#[test]
fn test_common_modality_equal_coverage_goes_by_score() {
    let records = vec![
        make_test_record(Laterality::Left, ViewPosition::Mlo, MammogramType::Ffdm),
        make_test_record(Laterality::Right, ViewPosition::Mlo, MammogramType::Tomo),
    ];
    // one view each: FFDM scores 1 and TOMO 3 under the default order
    let by_default = select_common_modality(&records, PreferenceOrder::Default);
    assert_eq!(by_default.coverage(), 1);
    assert!(by_default.is_within_family(true));
    assert_eq!(by_default.score(PreferenceOrder::Default), 1);
    // TOMO scores 1 and FFDM 2 when tomosynthesis comes first
    let by_tomo = select_common_modality(&records, PreferenceOrder::TomoFirst);
    assert_eq!(by_tomo.coverage(), 1);
    assert!(by_tomo.is_within_family(false));
    assert_eq!(by_tomo.score(PreferenceOrder::TomoFirst), 1);
}

#[test]
fn test_common_modality_full_tie_goes_to_2d() {
    // under the default order film and synthetic score 4 + 2 = 6, and two
    // tomosynthesis views score 3 + 3 = 6: the same coverage, the same score
    let tie = vec![
        make_test_record(Laterality::Left, ViewPosition::Mlo, MammogramType::Tomo),
        make_test_record(Laterality::Right, ViewPosition::Mlo, MammogramType::Tomo),
        make_test_record(Laterality::Left, ViewPosition::Cc, MammogramType::Sfm),
        make_test_record(Laterality::Right, ViewPosition::Cc, MammogramType::Synth),
    ];
    let tied = select_common_modality(&tie, PreferenceOrder::Default);
    assert_eq!(tied.coverage(), 2);
    assert_eq!(tied.score(PreferenceOrder::Default), 6);
    assert!(tied.is_within_family(true));
    assert_eq!(
        selected_type(&tied, Laterality::Left, ViewPosition::Cc),
        Some(MammogramType::Sfm)
    );
    // with tomosynthesis first the tie is gone: 1 + 1 against 4 + 3
    let by_tomo = select_common_modality(&tie, PreferenceOrder::TomoFirst);
    assert!(by_tomo.is_within_family(false));
    assert_eq!(by_tomo.score(PreferenceOrder::TomoFirst), 2);
}

#[test]
fn test_common_modality_leaves_unknown_types_out() {
    let records = vec![
        make_test_record(Laterality::Left, ViewPosition::Mlo, MammogramType::Unknown),
        make_test_record(Laterality::Right, ViewPosition::Mlo, MammogramType::Ffdm),
        make_test_record(Laterality::Left, ViewPosition::Cc, MammogramType::Tomo),
    ];
    let plain = get_preferred_views_with_order(&records, PreferenceOrder::Default);
    assert_eq!(plain.coverage(), 3);
    let enforced = select_common_modality(&records, PreferenceOrder::Default);
    assert_eq!(enforced.coverage(), 1);
    assert_eq!(
        selected_type(&enforced, Laterality::Right, ViewPosition::Mlo),
        Some(MammogramType::Ffdm)
    );
    assert_eq!(
        selected_type(&enforced, Laterality::Left, ViewPosition::Mlo),
        None
    );
}

#[test]
fn test_whitelist_holds_for_every_view() {
    let mut allowed = TypeSet::new();
    allowed.insert(MammogramType::Ffdm);
    let config = FilterConfig::default().with_allowed_types(allowed);
    let mut records = Vec::new();
    for laterality in [Laterality::Left, Laterality::Right] {
        for view in [ViewPosition::Mlo, ViewPosition::Cc] {
            for mammo_type in [
                MammogramType::Tomo,
                MammogramType::Ffdm,
                MammogramType::Synth,
                MammogramType::Sfm,
                MammogramType::Unknown,
            ] {
                records.push(make_test_record(laterality, view, mammo_type));
            }
        }
    }
    for order in [PreferenceOrder::Default, PreferenceOrder::TomoFirst] {
        let selections = get_preferred_views_filtered(&records, &config, order);
        assert_eq!(selections.coverage(), 4);
        for view in standard_mammo_views().iter() {
            let record = selections.get(view).unwrap().as_ref().unwrap();
            assert_eq!(record.metadata.mammogram_type, MammogramType::Ffdm);
            assert_eq!(record.metadata.laterality, view.laterality);
            assert_eq!(record.metadata.view_position, view.view);
        }
    }
    let filtered = apply_filters(&records, &config);
    assert_eq!(filtered.len(), 4);
}

#[test]
fn test_modality_filter_ignores_case() {
    let config = FilterConfig::default();
    let mut lower = make_test_record(Laterality::Left, ViewPosition::Mlo, MammogramType::Ffdm);
    lower.metadata.modality = Some("mg".to_string());
    assert!(passes_filters(&lower, &config));
    let mut other = make_test_record(Laterality::Left, ViewPosition::Mlo, MammogramType::Ffdm);
    other.metadata.modality = Some("MGX".to_string());
    assert!(!passes_filters(&other, &config));
    assert!(passes_filters(&other, &FilterConfig::permissive()));
    assert!(passes_rules(&other, &config, true));
    assert!(!passes_rules(&lower, &config, false));
}

#[test]
fn test_first_of_equally_preferred_candidates_stands() {
    let mut first = make_test_record(Laterality::Left, ViewPosition::Cc, MammogramType::Ffdm);
    first.file_path = PathBuf::from("first.dcm");
    let mut second = make_test_record(Laterality::Left, ViewPosition::Cc, MammogramType::Ffdm);
    second.file_path = PathBuf::from("second.dcm");
    let view = MammogramView::new(Laterality::Left, ViewPosition::Cc);
    let chosen = select_for_view(&[first.clone(), second.clone()], &view, PreferenceOrder::Default);
    assert_eq!(chosen.unwrap().file_path, PathBuf::from("first.dcm"));
    let chosen = select_for_view(&[second, first], &view, PreferenceOrder::Default);
    assert_eq!(chosen.unwrap().file_path, PathBuf::from("second.dcm"));
}

#[test]
fn test_selection_ignores_other_sides_and_views() {
    let records = vec![
        make_test_record(Laterality::Bilateral, ViewPosition::Mlo, MammogramType::Ffdm),
        make_test_record(Laterality::Unknown, ViewPosition::Cc, MammogramType::Ffdm),
        make_test_record(Laterality::Left, ViewPosition::At, MammogramType::Ffdm),
        make_test_record(Laterality::Right, ViewPosition::Unknown, MammogramType::Ffdm),
        make_test_record(Laterality::Left, ViewPosition::Xccl, MammogramType::Ffdm),
    ];
    let selections = get_preferred_views(&records);
    assert_eq!(selections.coverage(), 1);
    let chosen = selections
        .get(&MammogramView::new(Laterality::Left, ViewPosition::Cc))
        .unwrap()
        .as_ref()
        .unwrap();
    assert_eq!(chosen.metadata.view_position, ViewPosition::Xccl);
    assert!(selections
        .get(&MammogramView::new(Laterality::Left, ViewPosition::At))
        .is_none());
    assert!(!selections.contains_key(&MammogramView::new(Laterality::Bilateral, ViewPosition::Cc)));
}

#[test]
fn test_standard_candidate_beats_non_standard_of_its_group() {
    let records = vec![
        make_test_record(Laterality::Right, ViewPosition::Lm, MammogramType::Ffdm),
        make_test_record(Laterality::Right, ViewPosition::Mlo, MammogramType::Sfm),
    ];
    let selections = get_preferred_views(&records);
    let chosen = selections
        .get(&MammogramView::new(Laterality::Right, ViewPosition::Mlo))
        .unwrap()
        .as_ref()
        .unwrap();
    assert_eq!(chosen.metadata.view_position, ViewPosition::Mlo);
}

#[test]
fn test_family_pools() {
    let records = vec![
        make_test_record(Laterality::Left, ViewPosition::Mlo, MammogramType::Ffdm),
        make_test_record(Laterality::Left, ViewPosition::Mlo, MammogramType::Tomo),
        make_test_record(Laterality::Left, ViewPosition::Mlo, MammogramType::Unknown),
        make_test_record(Laterality::Left, ViewPosition::Mlo, MammogramType::Sfm),
        make_test_record(Laterality::Left, ViewPosition::Mlo, MammogramType::Synth),
    ];
    let two_d = records_of_family(&records, true);
    let types: Vec<MammogramType> = two_d.iter().map(|r| r.metadata.mammogram_type).collect();
    assert_eq!(
        types,
        vec![MammogramType::Ffdm, MammogramType::Sfm, MammogramType::Synth]
    );
    let three_d = records_of_family(&records, false);
    assert_eq!(three_d.len(), 1);
    assert_eq!(three_d[0].metadata.mammogram_type, MammogramType::Tomo);
}

fn permutations(n: usize) -> Vec<Vec<usize>> {
    if n == 0 {
        return vec![vec![]];
    }
    let mut out = Vec::new();
    for rest in permutations(n - 1) {
        for at in 0..=rest.len() {
            let mut next = rest.clone();
            next.insert(at, n - 1);
            out.push(next);
        }
    }
    out
}

#[test]
fn test_dominant_candidate_wins_in_every_order() {
    let mut best = sized_record(Laterality::Left, ViewPosition::Cc, MammogramType::Ffdm, 3000, 4000);
    best.sop_instance_uid = Some("best".to_string());
    let mut small = sized_record(Laterality::Left, ViewPosition::Cc, MammogramType::Ffdm, 10, 10);
    small.sop_instance_uid = Some("small".to_string());
    let mut tomo = sized_record(Laterality::Left, ViewPosition::Cc, MammogramType::Tomo, 4000, 4000);
    tomo.sop_instance_uid = Some("tomo".to_string());
    let mut spot = sized_record(Laterality::Left, ViewPosition::Cc, MammogramType::Ffdm, 4000, 4000);
    spot.is_spot_compression = true;
    spot.sop_instance_uid = Some("spot".to_string());
    let other_view = make_test_record(Laterality::Left, ViewPosition::Mlo, MammogramType::Ffdm);
    let pool = [best, small, tomo, spot, other_view];
    let view = MammogramView::new(Laterality::Left, ViewPosition::Cc);
    for order in permutations(pool.len()) {
        let records: Vec<MammogramRecord> = order.iter().map(|&i| pool[i].clone()).collect();
        let chosen = select_for_view(&records, &view, PreferenceOrder::Default).unwrap();
        assert_eq!(chosen.sop_instance_uid.as_deref(), Some("best"));
    }
}

#[test]
fn test_selected_is_most_preferred_within_a_study() {
    let mut pool = Vec::new();
    let mut n = 0;
    for mammo_type in [MammogramType::Ffdm, MammogramType::Tomo] {
        for displaced in [false, true] {
            for view in [ViewPosition::Mlo, ViewPosition::Lm] {
                let mut r = sized_record(Laterality::Right, view, mammo_type, 100 + n, 100);
                r.is_implant_displaced = displaced;
                r.is_magnified = n % 3 == 0;
                r.study_instance_uid = Some("1.2.3".to_string());
                r.sop_instance_uid = if n % 2 == 0 { Some(format!("1.{}", n)) } else { None };
                pool.push(r);
                n += 1;
            }
        }
    }
    let view = MammogramView::new(Laterality::Right, ViewPosition::Mlo);
    for order in [PreferenceOrder::Default, PreferenceOrder::TomoFirst] {
        for start in 0..pool.len() {
            let mut records = pool.clone();
            records.rotate_left(start);
            let chosen = select_for_view(&records, &view, order).unwrap();
            for r in &records {
                assert!(!r.is_preferred_to_with_order(&chosen, order));
            }
        }
    }
}

#[test]
fn test_permissive_filter_keeps_everything() {
    let mut records = Vec::new();
    for mammo_type in [MammogramType::Unknown, MammogramType::Tomo, MammogramType::Sfm] {
        let mut r = make_test_record(Laterality::Left, ViewPosition::At, mammo_type);
        r.metadata.has_implant = true;
        r.metadata.is_for_processing = true;
        r.metadata.is_secondary_capture = true;
        r.metadata.modality = None;
        records.push(r);
    }
    let kept = apply_filters(&records, &FilterConfig::permissive());
    assert_eq!(kept.len(), 3);
    for (a, b) in kept.iter().zip(&records) {
        assert_eq!(a.metadata, b.metadata);
    }
    assert!(apply_filters(&records, &FilterConfig::default()).is_empty());
}
