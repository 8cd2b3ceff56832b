use mammocat_core::files::{
    has_dicom_header, is_dicom_candidate, is_dicom_extension, HEADER_LEN, PREAMBLE_LEN,
};

fn header_with(magic: &[u8]) -> Vec<u8> {
    let mut bytes = vec![0u8; 128];
    bytes.extend_from_slice(magic);
    bytes
}

#[test]
fn test_header_with_magic_bytes() {
    let mut bytes = header_with(b"DICM");
    assert!(has_dicom_header(&bytes));
    bytes.extend_from_slice(b"additional data");
    assert!(has_dicom_header(&bytes));
    // what the preamble holds does not matter
    for b in bytes.iter_mut().take(128) {
        *b = 0xff;
    }
    assert!(has_dicom_header(&bytes));
    assert_eq!(PREAMBLE_LEN, 128);
    assert_eq!(HEADER_LEN, 132);
}

#[test]
fn test_header_without_magic_bytes() {
    assert!(!has_dicom_header(b"This is not a DICOM file"));
    assert!(!has_dicom_header(b"small"));
    assert!(!has_dicom_header(b""));
    assert!(!has_dicom_header(b"DICM"));
    assert!(!has_dicom_header(&header_with(b"NOTM")));
    assert!(!has_dicom_header(&header_with(b"dicm")));
    assert!(!has_dicom_header(&header_with(b"DIC")));
    assert!(!has_dicom_header(&header_with(b"DICO")));
    let mut shifted = vec![0u8; 129];
    shifted.extend_from_slice(b"DICM");
    assert!(!has_dicom_header(&shifted));
    let mut one_short = header_with(b"DICM");
    one_short.remove(0);
    assert!(!has_dicom_header(&one_short));
}

#[test]
fn test_dicom_extensions() {
    for ext in ["dcm", "DCM", "Dcm", "dCm", "dicom", "DICOM", "DiCoM"] {
        assert!(is_dicom_extension(ext));
        assert!("dcm".eq_ignore_ascii_case(ext) || "dicom".eq_ignore_ascii_case(ext));
    }
    for ext in ["", "txt", "dc", "dcmx", "dicm", "dico", "dicomm", ".dcm", "d\u{107}m", "dcm "] {
        assert!(!is_dicom_extension(ext));
    }
}

#[test]
fn test_candidates_go_by_extension_first() {
    let header = header_with(b"DICM");
    assert!(is_dicom_candidate(&Some("dcm".to_string()), b""));
    assert!(is_dicom_candidate(&Some("DICOM".to_string()), b"not dicom"));
    assert!(!is_dicom_candidate(&Some("txt".to_string()), &header));
    assert!(!is_dicom_candidate(&Some(String::new()), &header));
    assert!(is_dicom_candidate(&None, &header));
    assert!(!is_dicom_candidate(&None, b"not dicom"));
}

#[test]
fn test_is_dicom_file_with_valid_header() {
    // 128-byte preamble (zeros), the magic bytes, then some additional data
    let mut content = vec![0u8; 128];
    content.extend_from_slice(b"DICM");
    content.extend_from_slice(b"additional data");

    assert!(has_dicom_header(&content));
}

#[test]
fn test_is_dicom_file_without_valid_header() {
    assert!(!has_dicom_header(b"This is not a DICOM file"));
}

#[test]
fn test_is_dicom_file_too_small() {
    // smaller than 132 bytes
    assert!(!has_dicom_header(b"small"));
}

#[test]
fn test_is_dicom_file_wrong_magic() {
    // 128-byte preamble but wrong magic
    let mut content = vec![0u8; 128];
    content.extend_from_slice(b"NOTM");

    assert!(!has_dicom_header(&content));
}

#[test]
fn test_collect_dicom_files_with_extensions() {
    // files with different extensions, all empty
    let names = ["file1.dcm", "file2.DCM", "file3.dicom", "file4.DICOM", "file5.txt"];
    let found: Vec<&str> = names
        .iter()
        .copied()
        .filter(|name| {
            let extension = name.rsplit_once('.').map(|(_, ext)| ext.to_string());
            is_dicom_candidate(&extension, b"")
        })
        .collect();

    // Should find 4 files (.dcm and .dicom, case-insensitive)
    assert_eq!(found.len(), 4);
}

#[test]
fn test_collect_dicom_files_with_headerless() {
    // a headerless DICOM file and a headerless other file
    let mut dicom_content = vec![0u8; 128];
    dicom_content.extend_from_slice(b"DICM");
    let files: [(&str, &[u8]); 2] = [
        ("headerless_dicom", &dicom_content),
        ("headerless_other", b"not dicom"),
    ];
    let found: Vec<&str> = files
        .iter()
        .filter(|(_, content)| is_dicom_candidate(&None, content))
        .map(|(name, _)| *name)
        .collect();

    // Should find only the valid DICOM file
    assert_eq!(found.len(), 1);
    assert_eq!(found[0], "headerless_dicom");
}
