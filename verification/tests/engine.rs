use compression_core::engine::{map_command_error, map_ghostscript_failure};
use compression_core::{CompressionCoreError, GhostscriptAdapter, IoErrorKind};

#[test]
fn command_errors_point_at_the_engine() {
    assert_eq!(map_command_error(IoErrorKind::NotFound), CompressionCoreError::EngineMissing);
    assert_eq!(map_command_error(IoErrorKind::PermissionDenied), CompressionCoreError::WriteDenied);
    assert_eq!(map_command_error(IoErrorKind::StorageFull), CompressionCoreError::OutOfSpace);
    assert_eq!(map_command_error(IoErrorKind::WouldBlock), CompressionCoreError::FileInUse);
    assert_eq!(map_command_error(IoErrorKind::Other), CompressionCoreError::Unknown);
}

#[test]
fn password_messages_mean_protected_input() {
    assert_eq!(
        map_ghostscript_failure(b"   **** Error: This file requires a PASSWORD for access.\n"),
        CompressionCoreError::PasswordProtected
    );
    assert_eq!(
        map_ghostscript_failure(b"Error: /invalidfileaccess in --file--"),
        CompressionCoreError::PasswordProtected
    );
}

#[test]
fn system_messages_are_recognised() {
    assert_eq!(
        map_ghostscript_failure(b"could not open: Permission Denied"),
        CompressionCoreError::WriteDenied
    );
    assert_eq!(
        map_ghostscript_failure(b"write failed: No space left on device"),
        CompressionCoreError::OutOfSpace
    );
    assert_eq!(
        map_ghostscript_failure(b"Sharing violation on output"),
        CompressionCoreError::FileInUse
    );
    assert_eq!(map_ghostscript_failure(b"Resource busy"), CompressionCoreError::FileInUse);
}

#[test]
fn malformed_input_messages_mean_corrupt_pdf() {
    assert_eq!(
        map_ghostscript_failure(b"Error: /undefined in obj"),
        CompressionCoreError::CorruptPdf
    );
    assert_eq!(
        map_ghostscript_failure(b"   **** Error:  Couldn't find trailer dictionary."),
        CompressionCoreError::CorruptPdf
    );
    assert_eq!(
        map_ghostscript_failure(b"Catalog dictionary not located in file"),
        CompressionCoreError::CorruptPdf
    );
    assert_eq!(map_ghostscript_failure(b"SYNTAX ERROR at 12"), CompressionCoreError::CorruptPdf);
}

#[test]
fn unrecognised_output_is_kept_trimmed() {
    assert_eq!(
        map_ghostscript_failure(b"  \n GPL Ghostscript: unexpected end \t\n"),
        CompressionCoreError::EngineFailed("GPL Ghostscript: unexpected end".to_string())
    );
    assert_eq!(map_ghostscript_failure(b""), CompressionCoreError::EngineFailed(String::new()));
}

#[test]
fn invalid_utf8_is_replaced() {
    assert_eq!(
        map_ghostscript_failure(&[0xff, b'o', b'k']),
        CompressionCoreError::EngineFailed("\u{FFFD}ok".to_string())
    );
}

#[test]
fn ghostscript_arguments() {
    let args = GhostscriptAdapter.command_arguments("/in/a b.pdf", "/tmp/out.pdf");
    assert_eq!(
        args,
        vec![
            "-sDEVICE=pdfwrite",
            "-dCompatibilityLevel=1.4",
            "-dNOPAUSE",
            "-dBATCH",
            "-dSAFER",
            "-q",
            "-dPDFSETTINGS=/ebook",
            "-dDetectDuplicateImages=true",
            "-dCompressFonts=true",
            "-dSubsetFonts=true",
            "-dAutoRotatePages=/None",
            "-sOutputFile=/tmp/out.pdf",
            "/in/a b.pdf",
        ]
    );
}

#[test]
fn unicode_whitespace_is_trimmed() {
    assert_eq!(
        map_ghostscript_failure("\u{3000}\u{a0}odd\u{2009}end\u{85}\u{2029}".as_bytes()),
        CompressionCoreError::EngineFailed("odd\u{2009}end".to_string())
    );
}

use compression_core::engine::{
    choose_engine_binary, engine_output, ghostscript_candidates, resolve_ghostscript_binary,
    run_failure, Platform,
};
use compression_core::EngineOutput;

fn strings(v: &[&str]) -> Vec<String> {
    v.iter().map(|s| s.to_string()).collect()
}

#[test]
fn candidates_per_platform() {
    let dirs = strings(&["/usr/bin", "/opt/bin/"]);
    assert_eq!(
        ghostscript_candidates(Platform::MacOs, &dirs),
        Some(strings(&[
            "/opt/homebrew/bin/gs",
            "/usr/local/bin/gs",
            "/usr/bin/gs",
            "/usr/bin/gs",
            "/opt/bin/gs",
        ]))
    );
    assert_eq!(
        ghostscript_candidates(Platform::Linux, &dirs),
        Some(strings(&["/usr/bin/gs", "/opt/bin/gs"]))
    );
    assert_eq!(
        ghostscript_candidates(Platform::Windows, &dirs),
        Some(strings(&[
            "/usr/bin/gswin64c",
            "/opt/bin/gswin64c",
            "/usr/bin/gswin32c",
            "/opt/bin/gswin32c",
        ]))
    );
    assert_eq!(ghostscript_candidates(Platform::Other, &dirs), None);
    assert_eq!(ghostscript_candidates(Platform::Linux, &vec![]), Some(vec![]));
}

#[test]
fn override_wins() {
    let never = |_: &str| -> bool { panic!("no file check with an override") };
    assert_eq!(
        choose_engine_binary(Some("/my/gs".to_string()), None, &never),
        Ok("/my/gs".to_string())
    );
    assert_eq!(
        resolve_ghostscript_binary(Some("/my/gs".to_string()), Platform::Other, &vec![]),
        Ok("/my/gs".to_string())
    );
}

#[test]
fn first_file_among_candidates_is_chosen() {
    let asked = std::cell::RefCell::new(Vec::new());
    let is_file = |p: &str| {
        asked.borrow_mut().push(p.to_string());
        p == "/b/gs" || p == "/c/gs"
    };
    let found = choose_engine_binary(None, Some(strings(&["/a/gs", "/b/gs", "/c/gs"])), &is_file);
    assert_eq!(found, Ok("/b/gs".to_string()));
    assert_eq!(asked.into_inner(), vec!["/a/gs", "/b/gs"]);
}

#[test]
fn no_candidate_file_means_engine_missing() {
    assert_eq!(
        choose_engine_binary(None, Some(strings(&["/a/gs"])), &|_: &str| false),
        Err(CompressionCoreError::EngineMissing)
    );
    assert_eq!(
        choose_engine_binary(None, None, &|_: &str| true),
        Err(CompressionCoreError::UnsupportedPlatform)
    );
    assert_eq!(
        resolve_ghostscript_binary(None, Platform::Other, &strings(&["/usr/bin"])),
        Err(CompressionCoreError::UnsupportedPlatform)
    );
}

#[test]
fn resolving_on_disk_finds_an_existing_file() {
    let dir = tempfile::tempdir().expect("temp dir");
    let gs = tempfile::Builder::new()
        .prefix("gs")
        .rand_bytes(0)
        .tempfile_in(dir.path())
        .expect("gs file");
    let dirs = vec!["/nonexistent-dir".to_string(), dir.path().to_str().unwrap().to_string()];
    assert_eq!(
        resolve_ghostscript_binary(None, Platform::Linux, &dirs),
        Ok(gs.path().to_str().unwrap().to_string())
    );
    assert_eq!(
        resolve_ghostscript_binary(None, Platform::Linux, &vec!["/nonexistent-dir".to_string()]),
        Err(CompressionCoreError::EngineMissing)
    );
}

#[test]
fn run_outcomes() {
    assert_eq!(run_failure(true, b"Permission denied"), None);
    assert_eq!(run_failure(false, b"Permission denied"), Some(CompressionCoreError::WriteDenied));
    assert_eq!(
        run_failure(false, b" boom \n"),
        Some(CompressionCoreError::EngineFailed("boom".to_string()))
    );
    assert_eq!(engine_output(Ok(42)), Ok(EngineOutput { output_bytes: 42, warnings: vec![] }));
    assert_eq!(engine_output(Err(IoErrorKind::NotFound)), Err(CompressionCoreError::EngineMissing));
    assert_eq!(
        engine_output(Err(IoErrorKind::PermissionDenied)),
        Err(CompressionCoreError::WriteDenied)
    );
}
