//! The values that the library takes and hands back, with their views.
use vstd::prelude::*;

use crate::text::owned;

verus! {

/// The view of an optional string.
pub open spec fn opt_view(o: Option<String>) -> Option<Seq<char>> {
    match o {
        Some(s) => Some(s@),
        None => None,
    }
}

/// A copy of an optional string.
pub fn copy_opt_string(o: &Option<String>) -> (r: Option<String>)
    ensures
        opt_view(r) == opt_view(*o),
{
    match o {
        Some(s) => Some(owned(s.as_str())),
        None => None,
    }
}

/// Where a compression request came from.
#[derive(Debug, Clone, Copy, PartialEq, Eq, Structural)]
pub enum CompressionSource {
    Desktop,
    FinderAction,
    Cli,
}

/// A non-fatal remark attached to an analysis or a compression.
#[derive(Debug, Clone, PartialEq, Eq)]
pub struct CompressionWarning {
    pub code: String,
    pub message: String,
}

/// The public, stable description of a failure.
#[derive(Debug, Clone, PartialEq, Eq)]
pub struct CompressionError {
    pub code: String,
    pub message: String,
    pub details: Option<String>,
}

/// The view of a [`CompressionError`].
pub struct CompressionErrorView {
    pub code: Seq<char>,
    pub message: Seq<char>,
    pub details: Option<Seq<char>>,
}

impl View for CompressionError {
    type V = CompressionErrorView;

    open spec fn view(&self) -> CompressionErrorView {
        CompressionErrorView {
            code: self.code@,
            message: self.message@,
            details: opt_view(self.details),
        }
    }
}

/// What a look at an input file found.
#[derive(Debug, Clone, PartialEq, Eq)]
pub struct AnalyzePdfResult {
    pub input_path: String,
    pub bytes: u64,
    pub is_pdf: bool,
    pub page_count: Option<u32>,
    pub warnings: Vec<CompressionWarning>,
    pub error: Option<CompressionError>,
}

/// A request to compress one file.
#[derive(Debug, Clone, PartialEq, Eq)]
pub struct CompressionRequest {
    pub input_path: String,
    pub source: CompressionSource,
    pub suffix: Option<String>,
}

/// How a compression ended.
#[derive(Debug, Clone, Copy, PartialEq, Eq, Structural)]
pub enum CompressionStatus {
    Success,
    NoGain,
    Failed,
}

/// The outcome of one compression. The share of bytes saved, a
/// floating-point figure, is derived from `reduction_bytes` and
/// `original_bytes` by the caller.
#[derive(Debug, Clone, PartialEq, Eq)]
pub struct CompressionResult {
    pub status: CompressionStatus,
    pub input_path: String,
    pub output_path: Option<String>,
    pub original_bytes: u64,
    pub output_bytes: Option<u64>,
    pub reduction_bytes: Option<i64>,
    pub duration_ms: u128,
    pub warnings: Vec<CompressionWarning>,
    pub error: Option<CompressionError>,
}

impl CompressionResult {
    /// The process exit status that reports this outcome: 1 for a failure,
    /// 0 otherwise.
    pub fn exit_code(&self) -> (code: u8)
        ensures
            code == (if self.status == CompressionStatus::Failed { 1u8 } else { 0u8 }),
    {
        match self.status {
            CompressionStatus::Failed => 1,
            _ => 0,
        }
    }
}

/// User settings of the desktop application.
#[derive(Debug, PartialEq, Eq)]
pub struct AppSettings {
    pub output_suffix: String,
    pub keep_recent_jobs: usize,
    pub reveal_output_on_success: bool,
    pub open_output_on_success: bool,
}

/// The view of [`AppSettings`].
pub struct AppSettingsView {
    pub output_suffix: Seq<char>,
    pub keep_recent_jobs: usize,
    pub reveal_output_on_success: bool,
    pub open_output_on_success: bool,
}

impl View for AppSettings {
    type V = AppSettingsView;

    open spec fn view(&self) -> AppSettingsView {
        AppSettingsView {
            output_suffix: self.output_suffix@,
            keep_recent_jobs: self.keep_recent_jobs,
            reveal_output_on_success: self.reveal_output_on_success,
            open_output_on_success: self.open_output_on_success,
        }
    }
}

/// The settings a fresh installation starts with.
pub open spec fn default_settings() -> AppSettingsView {
    AppSettingsView {
        output_suffix: ".compressed"@,
        keep_recent_jobs: 20,
        reveal_output_on_success: false,
        open_output_on_success: false,
    }
}

impl Default for AppSettings {
    fn default() -> (s: Self)
        ensures
            s@ == default_settings(),
    {
        AppSettings {
            output_suffix: owned(".compressed"),
            keep_recent_jobs: 20,
            reveal_output_on_success: false,
            open_output_on_success: false,
        }
    }
}

impl Clone for AppSettings {
    fn clone(&self) -> (s: Self)
        ensures
            s@ == self@,
    {
        AppSettings {
            output_suffix: owned(self.output_suffix.as_str()),
            keep_recent_jobs: self.keep_recent_jobs,
            reveal_output_on_success: self.reveal_output_on_success,
            open_output_on_success: self.open_output_on_success,
        }
    }
}

/// A change to some of the settings: each field that is `Some` replaces
/// the current value.
#[derive(Debug, Clone, Default, PartialEq, Eq)]
pub struct PartialAppSettings {
    pub output_suffix: Option<String>,
    pub keep_recent_jobs: Option<usize>,
    pub reveal_output_on_success: Option<bool>,
    pub open_output_on_success: Option<bool>,
}

/// Where a remembered job came from.
#[derive(Debug, Clone, Copy, PartialEq, Eq, Structural)]
pub enum RecentJobSource {
    Desktop,
    FinderAction,
}

/// A compression remembered in the recent-jobs list.
#[derive(Debug, PartialEq, Eq)]
pub struct RecentJobRecord {
    pub id: String,
    pub created_at: String,
    pub source: RecentJobSource,
    pub input_path: String,
    pub output_path: Option<String>,
    pub original_bytes: u64,
    pub output_bytes: Option<u64>,
    pub status: CompressionStatus,
    pub error_code: Option<String>,
    pub duration_ms: u128,
}

/// The view of a [`RecentJobRecord`].
pub struct RecentJobRecordView {
    pub id: Seq<char>,
    pub created_at: Seq<char>,
    pub source: RecentJobSource,
    pub input_path: Seq<char>,
    pub output_path: Option<Seq<char>>,
    pub original_bytes: u64,
    pub output_bytes: Option<u64>,
    pub status: CompressionStatus,
    pub error_code: Option<Seq<char>>,
    pub duration_ms: u128,
}

impl View for RecentJobRecord {
    type V = RecentJobRecordView;

    open spec fn view(&self) -> RecentJobRecordView {
        RecentJobRecordView {
            id: self.id@,
            created_at: self.created_at@,
            source: self.source,
            input_path: self.input_path@,
            output_path: opt_view(self.output_path),
            original_bytes: self.original_bytes,
            output_bytes: self.output_bytes,
            status: self.status,
            error_code: opt_view(self.error_code),
            duration_ms: self.duration_ms,
        }
    }
}

impl Clone for RecentJobRecord {
    fn clone(&self) -> (r: Self)
        ensures
            r@ == self@,
    {
        RecentJobRecord {
            id: owned(self.id.as_str()),
            created_at: owned(self.created_at.as_str()),
            source: self.source,
            input_path: owned(self.input_path.as_str()),
            output_path: copy_opt_string(&self.output_path),
            original_bytes: self.original_bytes,
            output_bytes: self.output_bytes,
            status: self.status,
            error_code: copy_opt_string(&self.error_code),
            duration_ms: self.duration_ms,
        }
    }
}

} // verus!
