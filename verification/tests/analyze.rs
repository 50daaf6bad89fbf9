use compression_core::{analyze_pdf, FileProbe, IoErrorKind};

const PDF_HEAD: [u8; 5] = *b"%PDF-";

#[test]
fn valid_pdf_reports_its_size() {
    let r = analyze_pdf("/a/b.pdf", FileProbe::Opened { bytes: 1234, head: Some(PDF_HEAD) });
    assert_eq!(r.input_path, "/a/b.pdf");
    assert_eq!(r.bytes, 1234);
    assert!(r.is_pdf);
    assert_eq!(r.page_count, None);
    assert!(r.warnings.is_empty());
    assert!(r.error.is_none());
}

fn code_of(probe: FileProbe) -> String {
    let r = analyze_pdf("/x.pdf", probe);
    assert_eq!(r.bytes, 0);
    assert!(!r.is_pdf);
    assert_eq!(r.input_path, "/x.pdf");
    r.error.expect("error").code
}

#[test]
fn missing_file_is_not_found() {
    assert_eq!(code_of(FileProbe::Missing), "NOT_FOUND");
}

#[test]
fn metadata_failures_map_by_kind() {
    assert_eq!(code_of(FileProbe::MetadataFailed(IoErrorKind::PermissionDenied)), "READ_DENIED");
    assert_eq!(code_of(FileProbe::MetadataFailed(IoErrorKind::Other)), "UNKNOWN");
}

#[test]
fn empty_file_is_corrupt_even_if_unopenable() {
    assert_eq!(
        code_of(FileProbe::OpenFailed { bytes: 0, error: IoErrorKind::PermissionDenied }),
        "CORRUPT_PDF"
    );
    assert_eq!(code_of(FileProbe::Opened { bytes: 0, head: None }), "CORRUPT_PDF");
}

#[test]
fn open_failure_maps_by_kind() {
    assert_eq!(
        code_of(FileProbe::OpenFailed { bytes: 10, error: IoErrorKind::WouldBlock }),
        "FILE_IN_USE"
    );
}

#[test]
fn short_file_is_corrupt() {
    assert_eq!(code_of(FileProbe::Opened { bytes: 3, head: None }), "CORRUPT_PDF");
}

#[test]
fn wrong_signature_is_not_pdf() {
    assert_eq!(code_of(FileProbe::Opened { bytes: 100, head: Some(*b"%PDF ") }), "NOT_PDF");
    assert_eq!(code_of(FileProbe::Opened { bytes: 100, head: Some(*b"PK\x03\x04\x00") }), "NOT_PDF");
}
