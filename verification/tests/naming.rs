use std::path::{Path, PathBuf};

use compression_core::naming::{build_collision_path, first_free_output_path, folder_to_reveal};
use compression_core::{build_collision_safe_output_path, build_output_path};

/// Creates an empty file named `name` in `dir`.
fn create_file(dir: &Path, name: &str) -> PathBuf {
    let file = tempfile::Builder::new()
        .prefix(name)
        .rand_bytes(0)
        .tempfile_in(dir)
        .expect("collided file");
    file.into_temp_path().keep().expect("kept file")
}

#[test]
fn appends_default_suffix_to_pdf() {
    let output = build_output_path("/tmp/report.pdf", ".compressed");

    assert_eq!(output, "/tmp/report.compressed.pdf");
}

#[test]
fn increments_collision_suffixes() {
    let temp_dir = tempfile::tempdir().expect("temp dir");
    let input = temp_dir.path().join("report.pdf");
    let collided = temp_dir.path().join("report.compressed.pdf");

    create_file(temp_dir.path(), "report.compressed.pdf");
    assert!(collided.exists());

    let output = build_collision_safe_output_path(input.to_str().unwrap(), ".compressed");

    assert_eq!(
        output.as_deref(),
        temp_dir.path().join("report.compressed-2.pdf").to_str()
    );
}

#[test]
fn collision_path_skips_every_taken_number() {
    let temp_dir = tempfile::tempdir().expect("temp dir");
    let input = temp_dir.path().join("report.pdf");
    create_file(temp_dir.path(), "report.compressed.pdf");
    create_file(temp_dir.path(), "report.compressed-2.pdf");
    create_file(temp_dir.path(), "report.compressed-3.pdf");

    let output = build_collision_safe_output_path(input.to_str().unwrap(), ".compressed");

    assert_eq!(
        output.as_deref(),
        temp_dir.path().join("report.compressed-4.pdf").to_str()
    );
}

#[test]
fn free_output_path_is_the_plain_one() {
    let temp_dir = tempfile::tempdir().expect("temp dir");
    let input = temp_dir.path().join("scan.pdf");

    let output = build_collision_safe_output_path(input.to_str().unwrap(), ".small");

    assert_eq!(output.as_deref(), temp_dir.path().join("scan.small.pdf").to_str());
}

#[test]
fn keeps_uppercase_extension_and_custom_suffix() {
    assert_eq!(build_output_path("/docs/Report.PDF", "-min"), "/docs/Report-min.PDF");
}

#[test]
fn missing_extension_defaults_to_pdf() {
    assert_eq!(build_output_path("/docs/report", ".compressed"), "/docs/report.compressed.pdf");
}

#[test]
fn relative_file_without_directory_stays_relative() {
    assert_eq!(build_output_path("report.pdf", ".compressed"), "report.compressed.pdf");
}

#[test]
fn name_already_compressed_gets_suffix_again() {
    assert_eq!(
        build_output_path("/tmp/report.compressed.pdf", ".compressed"),
        "/tmp/report.compressed.compressed.pdf"
    );
}

#[test]
fn path_without_file_name_uses_document() {
    assert_eq!(build_output_path("/", ".compressed"), "document.compressed.pdf");
}

#[test]
fn collision_path_numbers_the_candidate() {
    assert_eq!(
        build_collision_path("/tmp/report.compressed.pdf", 12),
        "/tmp/report.compressed-12.pdf"
    );
    assert_eq!(build_collision_path("/tmp/report.compressed.pdf", 2), "/tmp/report.compressed-2.pdf");
}

#[test]
fn revealing_opens_the_parent_folder() {
    assert_eq!(folder_to_reveal("/tmp/out/report.compressed.pdf"), "/tmp/out");
    assert_eq!(folder_to_reveal("report.pdf"), "");
    assert_eq!(folder_to_reveal("/"), ".");
}

#[test]
fn search_takes_the_first_path_reported_free() {
    let taken = ["/d/r.c.pdf", "/d/r.c-2.pdf", "/d/r.c-3.pdf"];
    let asked = std::cell::RefCell::new(Vec::new());
    let is_taken = |p: &str| {
        asked.borrow_mut().push(p.to_string());
        taken.contains(&p)
    };
    let found = first_free_output_path("/d/r.pdf", ".c", &is_taken);
    assert_eq!(found.as_deref(), Some("/d/r.c-4.pdf"));
    assert_eq!(
        asked.into_inner(),
        vec!["/d/r.c.pdf", "/d/r.c-2.pdf", "/d/r.c-3.pdf", "/d/r.c-4.pdf"]
    );
}

#[test]
fn search_keeps_a_free_plain_path() {
    let found = first_free_output_path("/d/r.pdf", ".c", &|_: &str| false);
    assert_eq!(found.as_deref(), Some("/d/r.c.pdf"));
}
