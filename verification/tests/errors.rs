use compression_core::{CompressionCoreError, IoErrorKind};

fn public(e: CompressionCoreError) -> (String, String, Option<String>) {
    let p = e.into_public();
    (p.code, p.message, p.details)
}

#[test]
fn every_error_has_its_public_code_and_message() {
    let cases: Vec<(CompressionCoreError, &str, &str)> = vec![
        (CompressionCoreError::NotFound, "NOT_FOUND", "The selected file no longer exists."),
        (CompressionCoreError::NotPdf, "NOT_PDF", "The selected file is not a valid PDF."),
        (CompressionCoreError::CorruptPdf, "CORRUPT_PDF", "The selected PDF is empty or malformed."),
        (
            CompressionCoreError::PasswordProtected,
            "PASSWORD_PROTECTED",
            "The selected PDF is password protected.",
        ),
        (
            CompressionCoreError::EngineMissing,
            "ENGINE_MISSING",
            "Ghostscript is not available on this system.",
        ),
        (
            CompressionCoreError::ReadDenied,
            "READ_DENIED",
            "Squeeezo could not read the selected file.",
        ),
        (
            CompressionCoreError::WriteDenied,
            "WRITE_DENIED",
            "Squeeezo could not create the output file.",
        ),
        (
            CompressionCoreError::OutOfSpace,
            "OUT_OF_SPACE",
            "There is not enough disk space to write the output.",
        ),
        (
            CompressionCoreError::FileInUse,
            "FILE_IN_USE",
            "The PDF or its destination is currently in use.",
        ),
        (
            CompressionCoreError::UnsupportedPlatform,
            "UNSUPPORTED_PLATFORM",
            "Ghostscript is not configured for this platform.",
        ),
        (CompressionCoreError::Unknown, "UNKNOWN", "An unknown error occurred."),
    ];
    for (error, code, message) in cases {
        let (c, m, d) = public(error);
        assert_eq!(c, code);
        assert_eq!(m, message);
        assert_eq!(d, None);
    }
}

#[test]
fn engine_failure_keeps_its_diagnostics() {
    let (c, m, d) = public(CompressionCoreError::EngineFailed("gs: boom".to_string()));
    assert_eq!(c, "ENGINE_FAILED");
    assert_eq!(m, "The compression engine exited with an error.");
    assert_eq!(d.as_deref(), Some("gs: boom"));
}

#[test]
fn display_messages() {
    assert_eq!(CompressionCoreError::NotFound.display_message(), "File not found.");
    assert_eq!(CompressionCoreError::NotPdf.display_message(), "Input is not a PDF.");
    assert_eq!(
        CompressionCoreError::EngineFailed("x".to_string()).display_message(),
        "Compression engine failed."
    );
    assert_eq!(
        CompressionCoreError::FileInUse.display_message(),
        "The file is currently locked by another application."
    );
    assert_eq!(CompressionCoreError::Unknown.display_message(), "Unknown failure.");
}

#[test]
fn io_kinds_map_to_errors() {
    assert_eq!(CompressionCoreError::from(IoErrorKind::NotFound), CompressionCoreError::NotFound);
    assert_eq!(
        CompressionCoreError::from(IoErrorKind::PermissionDenied),
        CompressionCoreError::ReadDenied
    );
    assert_eq!(
        CompressionCoreError::from(IoErrorKind::StorageFull),
        CompressionCoreError::OutOfSpace
    );
    assert_eq!(CompressionCoreError::from(IoErrorKind::WouldBlock), CompressionCoreError::FileInUse);
    assert_eq!(CompressionCoreError::from(IoErrorKind::Other), CompressionCoreError::Unknown);
}

#[test]
fn write_failures_map_by_kind() {
    assert_eq!(
        CompressionCoreError::from_write_failure(IoErrorKind::PermissionDenied),
        CompressionCoreError::WriteDenied
    );
    assert_eq!(
        CompressionCoreError::from_write_failure(IoErrorKind::NotFound),
        CompressionCoreError::NotFound
    );
    assert_eq!(
        CompressionCoreError::from_write_failure(IoErrorKind::StorageFull),
        CompressionCoreError::OutOfSpace
    );
    assert_eq!(
        CompressionCoreError::from_write_failure(IoErrorKind::WouldBlock),
        CompressionCoreError::FileInUse
    );
    assert_eq!(
        CompressionCoreError::from_write_failure(IoErrorKind::Other),
        CompressionCoreError::Unknown
    );
}
