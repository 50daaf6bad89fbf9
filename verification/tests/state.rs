use compression_core::state::{chrono_timestamp, record_for_request, recent_job_record};
use compression_core::{
    AppSettings, CompressionError, CompressionResult, CompressionSource, CompressionStatus,
    PartialAppSettings, PersistentState, PersistentStateHandle, RecentJobRecord, RecentJobSource,
};

fn job(id: &str) -> RecentJobRecord {
    RecentJobRecord {
        id: id.to_string(),
        created_at: "0".to_string(),
        source: RecentJobSource::Desktop,
        input_path: format!("/in/{id}.pdf"),
        output_path: None,
        original_bytes: 1,
        output_bytes: None,
        status: CompressionStatus::Failed,
        error_code: Some("UNKNOWN".to_string()),
        duration_ms: 5,
    }
}

fn ids(h: &PersistentStateHandle) -> Vec<String> {
    h.recent_jobs().into_iter().map(|j| j.id).collect()
}

fn handle_with_keep(keep: usize) -> PersistentStateHandle {
    let mut state = PersistentState::default();
    state.settings.keep_recent_jobs = keep;
    PersistentStateHandle::new("/tmp/state.json".to_string(), state)
}

#[test]
fn default_settings() {
    let s = AppSettings::default();
    assert_eq!(s.output_suffix, ".compressed");
    assert_eq!(s.keep_recent_jobs, 20);
    assert!(!s.reveal_output_on_success);
    assert!(!s.open_output_on_success);
    let state = PersistentState::default();
    assert!(state.recent_jobs.is_empty());
    assert_eq!(state.settings, s);
}

#[test]
fn pushed_jobs_come_newest_first_and_oldest_are_dropped() {
    let mut h = handle_with_keep(2);
    h.push_recent_job(job("a"));
    h.push_recent_job(job("b"));
    h.push_recent_job(job("c"));
    assert_eq!(ids(&h), vec!["c", "b"]);
    assert_eq!(h.recent_jobs()[0], job("c"));
}

#[test]
fn zero_limit_still_keeps_the_newest_job() {
    let mut h = handle_with_keep(0);
    h.push_recent_job(job("a"));
    h.push_recent_job(job("b"));
    assert_eq!(ids(&h), vec!["b"]);
}

#[test]
fn default_limit_is_twenty() {
    let mut h = PersistentStateHandle::new("/s.json".to_string(), PersistentState::default());
    for i in 0..25 {
        h.push_recent_job(job(&i.to_string()));
    }
    let listed = ids(&h);
    assert_eq!(listed.len(), 20);
    assert_eq!(listed[0], "24");
    assert_eq!(listed[19], "5");
}

#[test]
fn clearing_forgets_jobs_and_keeps_settings() {
    let mut h = handle_with_keep(5);
    h.push_recent_job(job("a"));
    h.clear_recent_jobs();
    assert!(h.recent_jobs().is_empty());
    assert_eq!(h.settings().keep_recent_jobs, 5);
    h.clear_recent_jobs();
    assert!(h.recent_jobs().is_empty());
    assert_eq!(h.path(), "/tmp/state.json");
}

#[test]
fn update_replaces_given_fields_only() {
    let mut h = handle_with_keep(5);
    let s = h.update_settings(PartialAppSettings {
        output_suffix: Some(".small".to_string()),
        keep_recent_jobs: None,
        reveal_output_on_success: Some(true),
        open_output_on_success: None,
    });
    assert_eq!(s.output_suffix, ".small");
    assert_eq!(s.keep_recent_jobs, 5);
    assert!(s.reveal_output_on_success);
    assert!(!s.open_output_on_success);
    assert_eq!(h.settings(), s);
}

#[test]
fn new_limit_cuts_the_list() {
    let mut h = handle_with_keep(10);
    for id in ["a", "b", "c", "d"] {
        h.push_recent_job(job(id));
    }
    let s = h.update_settings(PartialAppSettings {
        keep_recent_jobs: Some(2),
        ..PartialAppSettings::default()
    });
    assert_eq!(s.keep_recent_jobs, 2);
    assert_eq!(ids(&h), vec!["d", "c"]);
}

#[test]
fn empty_update_changes_nothing() {
    let mut h = handle_with_keep(3);
    h.push_recent_job(job("a"));
    let before = h.settings();
    let after = h.update_settings(PartialAppSettings::default());
    assert_eq!(before, after);
    assert_eq!(ids(&h), vec!["a"]);
}

fn result(status: CompressionStatus, error: Option<&str>) -> CompressionResult {
    CompressionResult {
        status,
        input_path: "/in/r.pdf".to_string(),
        output_path: Some("/in/r.compressed.pdf".to_string()),
        original_bytes: 100,
        output_bytes: Some(40),
        reduction_bytes: Some(60),
        duration_ms: 42,
        warnings: vec![],
        error: error.map(|c| CompressionError {
            code: c.to_string(),
            message: "m".to_string(),
            details: None,
        }),
    }
}

#[test]
fn record_copies_the_result() {
    let r = recent_job_record(
        RecentJobSource::FinderAction,
        &result(CompressionStatus::Success, None),
        1_700_000_000_123,
        1_700_000_000,
    );
    assert_eq!(r.id, "1700000000123-42");
    assert_eq!(r.created_at, "1700000000");
    assert_eq!(r.source, RecentJobSource::FinderAction);
    assert_eq!(r.input_path, "/in/r.pdf");
    assert_eq!(r.output_path.as_deref(), Some("/in/r.compressed.pdf"));
    assert_eq!(r.original_bytes, 100);
    assert_eq!(r.output_bytes, Some(40));
    assert_eq!(r.status, CompressionStatus::Success);
    assert_eq!(r.error_code, None);
    assert_eq!(r.duration_ms, 42);

    let f = recent_job_record(
        RecentJobSource::Desktop,
        &result(CompressionStatus::Failed, Some("NOT_PDF")),
        0,
        0,
    );
    assert_eq!(f.id, "0-42");
    assert_eq!(f.error_code.as_deref(), Some("NOT_PDF"));
}

#[test]
fn command_line_jobs_are_not_remembered() {
    let r = result(CompressionStatus::Success, None);
    assert!(record_for_request(CompressionSource::Cli, &r).is_none());
    let d = record_for_request(CompressionSource::Desktop, &r).expect("record");
    assert_eq!(d.source, RecentJobSource::Desktop);
    assert!(d.id.ends_with("-42"));
    let f = record_for_request(CompressionSource::FinderAction, &r).expect("record");
    assert_eq!(f.source, RecentJobSource::FinderAction);
}

#[test]
fn timestamp_is_decimal_seconds() {
    let t = chrono_timestamp();
    assert!(!t.is_empty());
    assert!(t.chars().all(|c| c.is_ascii_digit()));
    assert!(t.parse::<u64>().unwrap() > 1_600_000_000);
}

#[test]
fn settings_are_those_of_the_last_update() {
    let mut h = PersistentStateHandle::new("/s.json".to_string(), PersistentState::default());
    h.update_settings(PartialAppSettings {
        output_suffix: Some(".a".to_string()),
        ..PartialAppSettings::default()
    });
    let last = h.update_settings(PartialAppSettings {
        keep_recent_jobs: Some(3),
        ..PartialAppSettings::default()
    });
    h.push_recent_job(job("x"));
    h.clear_recent_jobs();
    h.push_recent_job(job("y"));
    assert_eq!(h.settings(), last);
    assert_eq!(h.settings().output_suffix, ".a");
    assert_eq!(ids(&h), vec!["y"]);
}
