use dicom_core::value::{DataSetSequence, PrimitiveValue};
use dicom_core::{DataElement, Tag, VR};
use dicom_object::InMemDicomObject;
use mammocat_core::extraction::tags::{
    code_meanings, format_tag, get_code_meanings, get_int_value, get_multi_string_value,
    get_sequence_items, get_string_value, get_u16_value, require_int_value,
    require_string_value, CODE_MEANING, COLUMNS, IMAGE_TYPE, LATERALITY, MODALITY,
    NUMBER_OF_FRAMES, ROWS, SERIES_DESCRIPTION, SHARED_FUNCTIONAL_GROUPS_SEQUENCE,
    STUDY_INSTANCE_UID, VIEW_CODE_SEQUENCE, VIEW_POSITION,
};
use mammocat_core::MammocatError;

fn put(dcm: &mut InMemDicomObject, tag: (u16, u16), vr: VR, value: PrimitiveValue) {
    dcm.put(DataElement::new(Tag::from(tag), vr, value));
}

#[test]
fn test_tag_values() {
    // Just ensure tags are correctly defined
    assert_eq!(Tag::from(IMAGE_TYPE), Tag(0x0008, 0x0008));
    assert_eq!(Tag::from(MODALITY), Tag(0x0008, 0x0060));
    assert_eq!(Tag::from(NUMBER_OF_FRAMES), Tag(0x0028, 0x0008));
    assert_eq!(Tag::from(LATERALITY), Tag(0x0020, 0x0060));
    assert_eq!(Tag::from(VIEW_POSITION), Tag(0x0018, 0x5101));
}

#[test]
fn test_string_value_is_trimmed() {
    let mut dcm = InMemDicomObject::new_empty();
    assert_eq!(get_string_value(&dcm, SERIES_DESCRIPTION), None);
    put(&mut dcm, SERIES_DESCRIPTION, VR::LO, PrimitiveValue::from("  L CC  "));
    assert_eq!(
        get_string_value(&dcm, SERIES_DESCRIPTION),
        Some("L CC".to_string())
    );
    assert_eq!(get_string_value(&dcm, MODALITY), None);
    put(&mut dcm, MODALITY, VR::CS, PrimitiveValue::from(""));
    assert_eq!(get_string_value(&dcm, MODALITY), Some(String::new()));
    // a number reads as text too
    put(&mut dcm, ROWS, VR::US, PrimitiveValue::from(2560u16));
    assert_eq!(get_string_value(&dcm, ROWS), Some("2560".to_string()));
    // a sequence does not
    dcm.put(DataElement::new(
        Tag::from(VIEW_CODE_SEQUENCE),
        VR::SQ,
        DataSetSequence::from(vec![InMemDicomObject::new_empty()]),
    ));
    assert_eq!(get_string_value(&dcm, VIEW_CODE_SEQUENCE), None);
}

#[test]
fn test_integer_values() {
    let mut dcm = InMemDicomObject::new_empty();
    assert_eq!(get_int_value(&dcm, NUMBER_OF_FRAMES), None);
    assert_eq!(get_u16_value(&dcm, ROWS), None);
    put(&mut dcm, NUMBER_OF_FRAMES, VR::IS, PrimitiveValue::from("10"));
    put(&mut dcm, ROWS, VR::US, PrimitiveValue::from(2560u16));
    put(&mut dcm, COLUMNS, VR::IS, PrimitiveValue::from("70000"));
    put(&mut dcm, MODALITY, VR::CS, PrimitiveValue::from("MG"));
    assert_eq!(get_int_value(&dcm, NUMBER_OF_FRAMES), Some(10));
    assert_eq!(get_u16_value(&dcm, NUMBER_OF_FRAMES), Some(10));
    assert_eq!(get_u16_value(&dcm, ROWS), Some(2560));
    assert_eq!(get_int_value(&dcm, ROWS), Some(2560));
    assert_eq!(get_int_value(&dcm, COLUMNS), Some(70000));
    assert_eq!(get_u16_value(&dcm, COLUMNS), None);
    assert_eq!(get_int_value(&dcm, MODALITY), None);
    put(&mut dcm, NUMBER_OF_FRAMES, VR::IS, PrimitiveValue::from("-4"));
    assert_eq!(get_int_value(&dcm, NUMBER_OF_FRAMES), Some(-4));
    assert_eq!(get_u16_value(&dcm, NUMBER_OF_FRAMES), None);
}

#[test]
fn test_multi_string_values() {
    let mut dcm = InMemDicomObject::new_empty();
    assert_eq!(get_multi_string_value(&dcm, IMAGE_TYPE), None);
    put(
        &mut dcm,
        IMAGE_TYPE,
        VR::CS,
        PrimitiveValue::Strs(
            ["DERIVED", "PRIMARY", "", "LEFT"]
                .iter()
                .map(|s| s.to_string())
                .collect(),
        ),
    );
    assert_eq!(
        get_multi_string_value(&dcm, IMAGE_TYPE),
        Some(vec![
            "DERIVED".to_string(),
            "PRIMARY".to_string(),
            String::new(),
            "LEFT".to_string()
        ])
    );
    put(&mut dcm, MODALITY, VR::CS, PrimitiveValue::from("MG"));
    assert_eq!(
        get_multi_string_value(&dcm, MODALITY),
        Some(vec!["MG".to_string()])
    );
    dcm.put(DataElement::new(
        Tag::from(VIEW_CODE_SEQUENCE),
        VR::SQ,
        DataSetSequence::from(vec![InMemDicomObject::new_empty()]),
    ));
    assert_eq!(get_multi_string_value(&dcm, VIEW_CODE_SEQUENCE), None);
}

#[test]
fn test_sequence_items_and_code_meanings() {
    let mut dcm = InMemDicomObject::new_empty();
    assert!(get_sequence_items(&dcm, VIEW_CODE_SEQUENCE).is_none());
    assert!(get_code_meanings(&dcm, VIEW_CODE_SEQUENCE).is_empty());
    put(&mut dcm, MODALITY, VR::CS, PrimitiveValue::from("MG"));
    assert!(get_sequence_items(&dcm, MODALITY).is_none());
    let first = InMemDicomObject::from_element_iter([DataElement::new(
        Tag::from(CODE_MEANING),
        VR::LO,
        PrimitiveValue::from(" cranio-caudal "),
    )]);
    let second = InMemDicomObject::new_empty();
    let third = InMemDicomObject::from_element_iter([DataElement::new(
        Tag::from(CODE_MEANING),
        VR::LO,
        PrimitiveValue::from("Magnification"),
    )]);
    dcm.put(DataElement::new(
        Tag::from(VIEW_CODE_SEQUENCE),
        VR::SQ,
        DataSetSequence::from(vec![first, second, third]),
    ));
    let items = get_sequence_items(&dcm, VIEW_CODE_SEQUENCE).unwrap();
    assert_eq!(items.len(), 3);
    assert_eq!(
        get_string_value(&items[2], CODE_MEANING),
        Some("Magnification".to_string())
    );
    assert_eq!(
        code_meanings(items),
        vec!["cranio-caudal".to_string(), "Magnification".to_string()]
    );
    assert_eq!(
        get_code_meanings(&dcm, VIEW_CODE_SEQUENCE),
        vec!["cranio-caudal".to_string(), "Magnification".to_string()]
    );
    dcm.put(DataElement::new(
        Tag::from(VIEW_CODE_SEQUENCE),
        VR::SQ,
        DataSetSequence::from(Vec::<InMemDicomObject>::new()),
    ));
    assert_eq!(get_sequence_items(&dcm, VIEW_CODE_SEQUENCE).unwrap().len(), 0);
}

#[test]
fn test_tag_labels() {
    assert_eq!(format_tag(ROWS), "(0028,0010)");
    assert_eq!(format_tag(STUDY_INSTANCE_UID), "(0020,000D)");
    assert_eq!(format_tag(SHARED_FUNCTIONAL_GROUPS_SEQUENCE), "(5200,9229)");
    assert_eq!(format_tag((0, 0)), "(0000,0000)");
    assert_eq!(format_tag((0xffff, 0xabcd)), "(FFFF,ABCD)");
    assert_eq!(format_tag((0x1e9a, 0x0f07)), "(1E9A,0F07)");
    for tag in [ROWS, MODALITY, (0x7fe0, 0x0010), (0xfffe, 0xe00d)] {
        assert_eq!(format_tag(tag), Tag::from(tag).to_string());
    }
}

#[test]
fn test_required_values() {
    let mut dcm = InMemDicomObject::new_empty();
    put(&mut dcm, MODALITY, VR::CS, PrimitiveValue::from(" MG "));
    put(&mut dcm, NUMBER_OF_FRAMES, VR::IS, PrimitiveValue::from("12"));
    dcm.put(DataElement::new(
        Tag::from(VIEW_CODE_SEQUENCE),
        VR::SQ,
        DataSetSequence::from(vec![InMemDicomObject::new_empty()]),
    ));
    assert_eq!(require_string_value(&dcm, MODALITY).unwrap(), "MG");
    assert_eq!(require_int_value(&dcm, NUMBER_OF_FRAMES).unwrap(), 12);
    assert!(matches!(
        require_string_value(&dcm, ROWS),
        Err(MammocatError::TagNotFound(ref m)) if m == "(0028,0010)"
    ));
    assert!(matches!(
        require_int_value(&dcm, ROWS),
        Err(MammocatError::TagNotFound(ref m)) if m == "(0028,0010)"
    ));
    assert!(matches!(
        require_string_value(&dcm, VIEW_CODE_SEQUENCE),
        Err(MammocatError::InvalidValue(ref m)) if m == "(0054,0220)"
    ));
    assert!(matches!(
        require_int_value(&dcm, MODALITY),
        Err(MammocatError::InvalidValue(ref m)) if m == "(0008,0060)"
    ));
    assert!(matches!(
        require_int_value(&dcm, VIEW_CODE_SEQUENCE),
        Err(MammocatError::InvalidValue(_))
    ));
}
