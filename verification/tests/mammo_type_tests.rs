use dicom_core::{DataElement, PrimitiveValue, Tag, VR};
use dicom_object::InMemDicomObject;
use mammocat_core::extraction::mammo_type::{
    classify_by_markers, classify_mammogram_type, extract_image_type, extract_mammogram_type,
    extract_mammogram_type_impl, image_type_from_values,
};
use mammocat_core::extraction::tags::{
    IMAGE_TYPE, MANUFACTURER_MODEL_NAME, MODALITY, NUMBER_OF_FRAMES, SERIES_DESCRIPTION,
};
use mammocat_core::{ImageType, MammocatError, MammogramType};

/// Helper to create a minimal DICOM object for testing
fn create_test_dicom(image_type: &str, modality: &str) -> InMemDicomObject {
    let mut obj = InMemDicomObject::new_empty();

    // Add MODALITY tag
    obj.put(DataElement::new(
        Tag::from(MODALITY),
        VR::CS,
        PrimitiveValue::from(modality),
    ));

    // Add IMAGE_TYPE tag (multi-valued string)
    let image_type_parts: Vec<&str> = image_type.split('|').collect();
    obj.put(DataElement::new(
        Tag::from(IMAGE_TYPE),
        VR::CS,
        PrimitiveValue::Strs(image_type_parts.iter().map(|s| s.to_string()).collect()),
    ));

    obj
}

fn put_text(dcm: &mut InMemDicomObject, tag: (u16, u16), value: &str) {
    dcm.put(DataElement::new(
        Tag::from(tag),
        VR::LO,
        PrimitiveValue::from(value),
    ));
}

fn image_type(parts: &[&str]) -> ImageType {
    let values: Vec<String> = parts.iter().map(|s| s.to_string()).collect();
    image_type_from_values(&Some(values))
}

fn classify(parts: &[&str], machine: Option<&str>, series: Option<&str>, is_sfm: bool) -> MammogramType {
    classify_mammogram_type(
        &Some("MG".to_string()),
        1,
        &image_type(parts),
        &machine.map(|s| s.to_string()),
        &series.map(|s| s.to_string()),
        is_sfm,
        false,
    )
    .unwrap()
}

#[test]
fn test_tomo_2d_classification() {
    // Test that TOMO_2D in flavor field is classified as SYNTH
    let dcm = create_test_dicom("DERIVED|PRIMARY|TOMO_2D|LEFT", "MG");
    let result = extract_mammogram_type(&dcm, false).unwrap();
    assert_eq!(result, MammogramType::Synth);
}

#[test]
fn test_tomo_2d_case_insensitive() {
    // Test that the check is case insensitive
    let dcm = create_test_dicom("DERIVED|PRIMARY|tomo_2d", "MG");
    let result = extract_mammogram_type(&dcm, false).unwrap();
    assert_eq!(result, MammogramType::Synth);
}

#[test]
fn test_original_pixels_classified_as_ffdm() {
    // Test that ORIGINAL in pixels field is classified as FFDM
    let dcm = create_test_dicom("ORIGINAL|PRIMARY", "MG");
    let result = extract_mammogram_type(&dcm, false).unwrap();
    assert_eq!(result, MammogramType::Ffdm);
}

#[test]
fn test_sfm_flag_takes_precedence() {
    // Test that is_sfm flag takes precedence over other rules
    let dcm = create_test_dicom("DERIVED|PRIMARY|TOMO_2D", "MG");
    let result = extract_mammogram_type(&dcm, true).unwrap();
    assert_eq!(result, MammogramType::Sfm);
}

#[test]
fn test_multiframe_classified_as_tomo() {
    // Test that NumberOfFrames > 1 is classified as TOMO
    let mut dcm = create_test_dicom("ORIGINAL|PRIMARY", "MG");
    dcm.put(DataElement::new(
        Tag::from(NUMBER_OF_FRAMES),
        VR::IS,
        PrimitiveValue::from("10"),
    ));
    let result = extract_mammogram_type(&dcm, false).unwrap();
    assert_eq!(result, MammogramType::Tomo);
}

#[test]
fn test_default_to_ffdm() {
    // Test that DERIVED|PRIMARY without special markers defaults to FFDM
    let dcm = create_test_dicom("DERIVED|PRIMARY", "MG");
    let result = extract_mammogram_type(&dcm, false).unwrap();
    assert_eq!(result, MammogramType::Ffdm);
}

#[test]
fn test_other_modality_is_an_extraction_error() {
    let dcm = create_test_dicom("ORIGINAL|PRIMARY", "CT");
    match extract_mammogram_type(&dcm, false) {
        Err(MammocatError::ExtractionError(message)) => {
            assert_eq!(message, "Expected modality=MG, found CT");
        }
        other => panic!("unexpected result {:?}", other),
    }
    // the modality is compared as it is, so lowercase is another modality
    let lower = create_test_dicom("ORIGINAL|PRIMARY", "mg");
    assert!(matches!(
        extract_mammogram_type(&lower, false),
        Err(MammocatError::ExtractionError(_))
    ));
    // with the modality ignored the classification goes on
    assert_eq!(
        extract_mammogram_type_impl(&dcm, false, true).unwrap(),
        MammogramType::Ffdm
    );
    // the check comes before everything, the frame count too
    let mut frames = create_test_dicom("ORIGINAL|PRIMARY", "US");
    frames.put(DataElement::new(
        Tag::from(NUMBER_OF_FRAMES),
        VR::IS,
        PrimitiveValue::from("10"),
    ));
    assert!(extract_mammogram_type(&frames, true).is_err());
    assert_eq!(
        extract_mammogram_type_impl(&frames, true, true).unwrap(),
        MammogramType::Tomo
    );
}

#[test]
fn test_absent_modality_is_accepted() {
    let mut dcm = InMemDicomObject::new_empty();
    dcm.put(DataElement::new(
        Tag::from(IMAGE_TYPE),
        VR::CS,
        PrimitiveValue::Strs(
            ["DERIVED", "PRIMARY", "TOMO_2D"]
                .iter()
                .map(|s| s.to_string())
                .collect(),
        ),
    ));
    assert_eq!(
        extract_mammogram_type(&dcm, false).unwrap(),
        MammogramType::Synth
    );
}

#[test]
fn test_frame_count_decides_before_everything_else() {
    for frames in [2, 10, i32::MAX] {
        for is_sfm in [false, true] {
            let result = classify_mammogram_type(
                &None,
                frames,
                &image_type(&[]),
                &Some("FDR-3000AWS".to_string()),
                &Some("S-View".to_string()),
                is_sfm,
                false,
            );
            assert_eq!(result.unwrap(), MammogramType::Tomo);
        }
    }
    for frames in [1, 0, -3] {
        let result = classify_mammogram_type(
            &None,
            frames,
            &image_type(&["ORIGINAL", "PRIMARY"]),
            &None,
            &None,
            true,
            false,
        );
        assert_eq!(result.unwrap(), MammogramType::Sfm);
    }
}

#[test]
fn test_unusable_image_type_counts_as_ffdm() {
    assert_eq!(classify(&[], None, Some("S-View"), true), MammogramType::Ffdm);
    assert_eq!(classify(&["DERIVED"], None, None, true), MammogramType::Ffdm);
    assert_eq!(
        classify(&["", "PRIMARY", "TOMO_2D"], None, None, false),
        MammogramType::Ffdm
    );
    let none = classify_mammogram_type(&None, 1, &image_type_from_values(&None), &None, &None, true, false);
    assert_eq!(none.unwrap(), MammogramType::Ffdm);
    let dcm = InMemDicomObject::new_empty();
    assert_eq!(extract_mammogram_type(&dcm, true).unwrap(), MammogramType::Ffdm);
}

#[test]
fn test_rules_apply_in_order() {
    // the film flag beats the synthetic markers
    assert_eq!(
        classify(&["DERIVED", "PRIMARY", "TOMO_2D", "GENERATED_2D"], None, Some("C-View"), true),
        MammogramType::Sfm
    );
    // the series description beats the original pixels
    assert_eq!(
        classify(&["ORIGINAL", "PRIMARY"], None, Some("L MLO S-View"), false),
        MammogramType::Synth
    );
    assert_eq!(
        classify(&["ORIGINAL", "PRIMARY"], None, Some("c-view"), false),
        MammogramType::Synth
    );
    // original pixels beat the flavor and the extras
    assert_eq!(
        classify(&["ORIGINAL", "PRIMARY", "TOMO_2D", "GENERATED_2D"], None, Some("view"), false),
        MammogramType::Ffdm
    );
    // an extra marks a synthetic view
    assert_eq!(
        classify(&["DERIVED", "PRIMARY", "", "LEFT", "Generated_2D"], None, None, false),
        MammogramType::Synth
    );
    assert_eq!(
        classify(&["DERIVED", "PRIMARY", "", "LEFT"], None, None, false),
        MammogramType::Ffdm
    );
}

#[test]
fn test_legacy_machine_rule() {
    assert_eq!(
        classify(&["DERIVED", "PRIMARY"], Some("FDR-3000AWS"), None, false),
        MammogramType::Synth
    );
    assert_eq!(
        classify(&["Derived", "Primary", "other"], Some("fdr-3000aws"), None, false),
        MammogramType::Synth
    );
    assert_eq!(
        classify(&["DERIVED", "PRIMARY", "POST_CONTRAST"], Some("FDR-3000AWS"), None, false),
        MammogramType::Ffdm
    );
    assert_eq!(
        classify(&["DERIVED", "SECONDARY"], Some("FDR-3000AWS"), None, false),
        MammogramType::Ffdm
    );
    assert_eq!(
        classify(&["DERIVED", "PRIMARY"], Some("FDR-3000AWS2"), None, false),
        MammogramType::Ffdm
    );
    assert_eq!(
        classify(&["DERIVED", "PRIMARY"], None, None, false),
        MammogramType::Ffdm
    );
}

#[test]
fn test_markers_are_taken_as_given() {
    let none: Vec<String> = Vec::new();
    assert_eq!(
        classify_by_markers("original", "primary", "", &none, "", "", false),
        MammogramType::Ffdm
    );
    // no folding of case at this level
    assert_eq!(
        classify_by_markers("derived", "primary", "TOMO_2D", &none, "", "", false),
        MammogramType::Ffdm
    );
    assert_eq!(
        classify_by_markers("derived", "primary", "tomo_2d", &none, "", "", false),
        MammogramType::Synth
    );
    assert_eq!(
        classify_by_markers("derived", "primary", "", &vec!["x_generated_2d_y".to_string()], "", "", false),
        MammogramType::Synth
    );
    assert_eq!(
        classify_by_markers("derived", "primary", "", &none, "fdr-3000aws", "", false),
        MammogramType::Synth
    );
    assert_eq!(
        classify_by_markers("derived", "primary", "", &none, "", "a c-view b", false),
        MammogramType::Synth
    );
    assert_eq!(
        classify_by_markers("derived", "primary", "", &none, "", "C-VIEW", false),
        MammogramType::Ffdm
    );
    assert_eq!(
        classify_by_markers("derived", "primary", "tomo_2d", &none, "", "s-view", true),
        MammogramType::Sfm
    );
}

#[test]
fn test_dicom_fields_reach_the_classification() {
    let mut dcm = create_test_dicom("DERIVED|PRIMARY", "MG");
    put_text(&mut dcm, MANUFACTURER_MODEL_NAME, "FDR-3000AWS");
    assert_eq!(
        extract_mammogram_type(&dcm, false).unwrap(),
        MammogramType::Synth
    );
    let mut dcm = create_test_dicom("ORIGINAL|PRIMARY", "MG");
    put_text(&mut dcm, SERIES_DESCRIPTION, "R CC C-View");
    assert_eq!(
        extract_mammogram_type(&dcm, false).unwrap(),
        MammogramType::Synth
    );
    let mut dcm = create_test_dicom("ORIGINAL|PRIMARY", "MG");
    dcm.put(DataElement::new(
        Tag::from(NUMBER_OF_FRAMES),
        VR::IS,
        PrimitiveValue::from("1"),
    ));
    assert_eq!(
        extract_mammogram_type(&dcm, false).unwrap(),
        MammogramType::Ffdm
    );
}

#[test]
fn test_image_type_decomposition() {
    assert_eq!(
        image_type_from_values(&None),
        ImageType::new(String::new(), String::new(), None, None)
    );
    assert_eq!(
        image_type(&[]),
        ImageType::new(String::new(), String::new(), None, None)
    );
    assert_eq!(
        image_type(&["A"]),
        ImageType::new("A".to_string(), String::new(), None, None)
    );
    assert_eq!(
        image_type(&["A", "B"]),
        ImageType::new("A".to_string(), "B".to_string(), None, None)
    );
    assert_eq!(
        image_type(&["A", "B", "C"]),
        ImageType::new("A".to_string(), "B".to_string(), Some("C".to_string()), None)
    );
    assert_eq!(
        image_type(&["A", "B", "C", "D", "E"]),
        ImageType::new(
            "A".to_string(),
            "B".to_string(),
            Some("C".to_string()),
            Some(vec!["D".to_string(), "E".to_string()])
        )
    );
    let dcm = create_test_dicom("DERIVED|PRIMARY|TOMO_2D|LEFT", "MG");
    assert_eq!(
        extract_image_type(&dcm),
        image_type(&["DERIVED", "PRIMARY", "TOMO_2D", "LEFT"])
    );
    assert!(!extract_image_type(&InMemDicomObject::new_empty()).is_valid());
}
